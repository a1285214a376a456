//! API versions, packed into 32 bits as the native layer reads them.

use vstd::prelude::*;
use vstd::string::StringExecFns;

verus! {

/// A version of the native API: a variant in the top 3 bits, then a major
/// number of 7 bits, a minor number of 10 bits and a patch number of 12 bits.
#[derive(Debug, Default, Clone, Copy, PartialEq, Eq, Structural)]
pub struct ApiVersion(pub u32);

/// The packed form of the four parts of a version.
pub open spec fn spec_pack(variant: u32, major: u32, minor: u32, patch: u32) -> u32 {
    (variant << 29) | (major << 22) | (minor << 12) | patch
}

/// Whether the four parts of a version fit the bits they are packed into.
pub open spec fn parts_in_range(variant: u32, major: u32, minor: u32, patch: u32) -> bool {
    variant <= 7 && major <= 127 && minor <= 1023 && patch <= 4095
}

/// The character that stands for a decimal digit.
pub open spec fn spec_digit(d: int) -> char {
    if d == 0 {
        '0'
    } else if d == 1 {
        '1'
    } else if d == 2 {
        '2'
    } else if d == 3 {
        '3'
    } else if d == 4 {
        '4'
    } else if d == 5 {
        '5'
    } else if d == 6 {
        '6'
    } else if d == 7 {
        '7'
    } else if d == 8 {
        '8'
    } else {
        '9'
    }
}

/// A number in decimal digits, the most significant first, without leading
/// zeros.
pub open spec fn spec_decimal(n: nat) -> Seq<char>
    decreases n,
{
    if n < 10 {
        seq![spec_digit(n as int)]
    } else {
        spec_decimal(n / 10).push(spec_digit((n % 10) as int))
    }
}

/// One decimal digit as text.
fn digit_text(d: u32) -> (r: &'static str)
    requires
        d < 10,
    ensures
        r@ == seq![spec_digit(d as int)],
{
    proof {
        reveal_strlit("0");
        reveal_strlit("1");
        reveal_strlit("2");
        reveal_strlit("3");
        reveal_strlit("4");
        reveal_strlit("5");
        reveal_strlit("6");
        reveal_strlit("7");
        reveal_strlit("8");
        reveal_strlit("9");
    }
    let r = if d == 0 {
        "0"
    } else if d == 1 {
        "1"
    } else if d == 2 {
        "2"
    } else if d == 3 {
        "3"
    } else if d == 4 {
        "4"
    } else if d == 5 {
        "5"
    } else if d == 6 {
        "6"
    } else if d == 7 {
        "7"
    } else if d == 8 {
        "8"
    } else {
        "9"
    };
    assert(r@ =~= seq![spec_digit(d as int)]);
    r
}

/// Writes `n` in decimal digits at the end of `text`.
pub fn append_decimal(text: &mut String, n: u32)
    ensures
        final(text)@ == old(text)@ + spec_decimal(n as nat),
    decreases n,
{
    if n >= 10 {
        append_decimal(text, n / 10);
    }
    text.append(digit_text(n % 10));
    assert(text@ =~= old(text)@ + spec_decimal(n as nat));
}

impl ApiVersion {
    /// The version as the native layer reads it.
    pub open spec fn spec_raw(self) -> u32 {
        self.0
    }

    pub open spec fn spec_variant(self) -> u32 {
        self.0 >> 29
    }

    pub open spec fn spec_major(self) -> u32 {
        (self.0 >> 22) & 0x7F
    }

    pub open spec fn spec_minor(self) -> u32 {
        (self.0 >> 12) & 0x3FF
    }

    pub open spec fn spec_patch(self) -> u32 {
        self.0 & 0xFFF
    }

    /// Packs the four parts. A part that does not fit its bits spills into
    /// the bits above it.
    pub fn new(variant: u32, major: u32, minor: u32, patch: u32) -> (r: Self)
        ensures
            r.spec_raw() == spec_pack(variant, major, minor, patch),
            parts_in_range(variant, major, minor, patch) ==> r.spec_variant() == variant
                && r.spec_major() == major && r.spec_minor() == minor && r.spec_patch()
                == patch,
    {
        proof {
            if parts_in_range(variant, major, minor, patch) {
                ApiVersion::lemma_round_trip(variant, major, minor, patch);
            }
        }
        Self((variant << 29) | (major << 22) | (minor << 12) | patch)
    }

    /// Version 1.0.0.
    pub fn v1_0() -> (r: Self)
        ensures
            r.spec_raw() == spec_pack(0, 1, 0, 0),
            r.spec_raw() == 0x0040_0000,
    {
        assert(spec_pack(0, 1, 0, 0) == 0x0040_0000) by (bit_vector);
        Self::new(0, 1, 0, 0)
    }

    /// Version 1.1.0.
    pub fn v1_1() -> (r: Self)
        ensures
            r.spec_raw() == spec_pack(0, 1, 1, 0),
            r.spec_raw() == 0x0040_1000,
    {
        assert(spec_pack(0, 1, 1, 0) == 0x0040_1000) by (bit_vector);
        Self::new(0, 1, 1, 0)
    }

    /// Version 1.2.0.
    pub fn v1_2() -> (r: Self)
        ensures
            r.spec_raw() == spec_pack(0, 1, 2, 0),
            r.spec_raw() == 0x0040_2000,
    {
        assert(spec_pack(0, 1, 2, 0) == 0x0040_2000) by (bit_vector);
        Self::new(0, 1, 2, 0)
    }

    /// The version that the native layer reports as `raw`.
    pub fn from_raw(raw: u32) -> (r: Self)
        ensures
            r.spec_raw() == raw,
    {
        Self(raw)
    }

    pub fn raw(&self) -> (r: u32)
        ensures
            r == self.spec_raw(),
    {
        self.0
    }

    pub fn variant(&self) -> (r: u32)
        ensures
            r == self.spec_variant(),
            r <= 7,
    {
        let raw: u32 = self.0;
        assert(raw >> 29 <= 7) by (bit_vector);
        raw >> 29
    }

    pub fn major(&self) -> (r: u32)
        ensures
            r == self.spec_major(),
            r <= 127,
    {
        let raw: u32 = self.0;
        assert((raw >> 22) & 0x7F <= 127) by (bit_vector);
        (raw >> 22) & 0x7F
    }

    pub fn minor(&self) -> (r: u32)
        ensures
            r == self.spec_minor(),
            r <= 1023,
    {
        let raw: u32 = self.0;
        assert((raw >> 12) & 0x3FF <= 1023) by (bit_vector);
        (raw >> 12) & 0x3FF
    }

    pub fn patch(&self) -> (r: u32)
        ensures
            r == self.spec_patch(),
            r <= 4095,
    {
        let raw: u32 = self.0;
        assert(raw & 0xFFF <= 4095) by (bit_vector);
        raw & 0xFFF
    }

    /// Versions compare as their packed integers do.
    pub fn at_least(&self, other: &ApiVersion) -> (r: bool)
        ensures
            r == (self.spec_raw() >= other.spec_raw()),
    {
        self.0 >= other.0
    }

    /// The version as it is shown: the major, minor and patch numbers in
    /// decimal, with a dot between them.
    pub open spec fn spec_text(self) -> Seq<char> {
        spec_decimal(self.spec_major() as nat) + seq!['.'] + spec_decimal(self.spec_minor() as nat)
            + seq!['.'] + spec_decimal(self.spec_patch() as nat)
    }

    pub fn to_string(&self) -> (r: String)
        ensures
            r@ == self.spec_text(),
    {
        proof {
            reveal_strlit(".");
        }
        let mut r = String::new();
        append_decimal(&mut r, self.major());
        r.append(".");
        append_decimal(&mut r, self.minor());
        r.append(".");
        append_decimal(&mut r, self.patch());
        assert(r@ =~= self.spec_text());
        r
    }

    /// Unpacking a packed version gives back each part that was packed,
    /// whenever every part fits its bits.
    pub proof fn lemma_round_trip(variant: u32, major: u32, minor: u32, patch: u32)
        requires
            parts_in_range(variant, major, minor, patch),
        ensures
            ApiVersion(spec_pack(variant, major, minor, patch)).spec_variant() == variant,
            ApiVersion(spec_pack(variant, major, minor, patch)).spec_major() == major,
            ApiVersion(spec_pack(variant, major, minor, patch)).spec_minor() == minor,
            ApiVersion(spec_pack(variant, major, minor, patch)).spec_patch() == patch,
    {
        assert(((variant << 29) | (major << 22) | (minor << 12) | patch) >> 29 == variant
            && ((((variant << 29) | (major << 22) | (minor << 12) | patch) >> 22) & 0x7F)
            == major && ((((variant << 29) | (major << 22) | (minor << 12) | patch) >> 12)
            & 0x3FF) == minor && (((variant << 29) | (major << 22) | (minor << 12) | patch)
            & 0xFFF) == patch) by (bit_vector)
            requires
                variant <= 7 && major <= 127 && minor <= 1023 && patch <= 4095,
        ;
    }

    /// Packing the parts of any version gives that version back.
    pub proof fn lemma_parts_determine(v: ApiVersion)
        ensures
            parts_in_range(v.spec_variant(), v.spec_major(), v.spec_minor(), v.spec_patch()),
            spec_pack(v.spec_variant(), v.spec_major(), v.spec_minor(), v.spec_patch())
                == v.spec_raw(),
    {
        let raw: u32 = v.0;
        assert((raw >> 29) <= 7 && ((raw >> 22) & 0x7F) <= 127 && ((raw >> 12) & 0x3FF) <= 1023
            && (raw & 0xFFF) <= 4095 && (((raw >> 29) << 29) | (((raw >> 22) & 0x7F) << 22) | (((raw
            >> 12) & 0x3FF) << 12) | (raw & 0xFFF)) == raw) by (bit_vector);
    }

    /// The packed integer is the weighted sum of the parts, so that packed
    /// versions are ordered as their parts are, the variant first and the
    /// patch number last.
    pub proof fn lemma_packed_value(variant: u32, major: u32, minor: u32, patch: u32)
        requires
            parts_in_range(variant, major, minor, patch),
        ensures
            spec_pack(variant, major, minor, patch) == variant * 0x2000_0000 + major * 0x40_0000
                + minor * 0x1000 + patch,
    {
        assert(((variant << 29) | (major << 22) | (minor << 12) | patch) == variant
            * 0x2000_0000 + major * 0x40_0000 + minor * 0x1000 + patch) by (bit_vector)
            requires
                variant <= 7 && major <= 127 && minor <= 1023 && patch <= 4095,
        ;
    }

    /// Of two versions with parts in range, the one whose parts come first
    /// in the order variant, major, minor, patch has the smaller packed
    /// integer.
    pub proof fn lemma_order(a: (u32, u32, u32, u32), b: (u32, u32, u32, u32))
        requires
            parts_in_range(a.0, a.1, a.2, a.3),
            parts_in_range(b.0, b.1, b.2, b.3),
        ensures
            spec_pack(a.0, a.1, a.2, a.3) < spec_pack(b.0, b.1, b.2, b.3) <==> (a.0 < b.0 || (a.0
                == b.0 && (a.1 < b.1 || (a.1 == b.1 && (a.2 < b.2 || (a.2 == b.2 && a.3
                < b.3)))))),
    {
        ApiVersion::lemma_packed_value(a.0, a.1, a.2, a.3);
        ApiVersion::lemma_packed_value(b.0, b.1, b.2, b.3);
    }
}

} // verus!
