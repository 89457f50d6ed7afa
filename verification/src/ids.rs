//! Identifiers of sortitions, Stacks blocks and their headers.

use crate::text::{hex, hex_digit_value, hex_reads_back, hex_text, same_bytes};
use vstd::prelude::*;
use vstd::std_specs::cmp::PartialEqSpec;

verus! {

/// Commits to the burn-chain history up to one sortition.
#[derive(Debug, Clone, Copy)]
pub struct ConsensusHash(pub [u8; 20]);

impl ConsensusHash {
    /// The identifier in lower-case hexadecimal.
    pub open spec fn text(self) -> Seq<char> {
        hex_text(self.0@)
    }

    /// Renders the identifier in lower-case hexadecimal.
    pub fn to_hex(&self) -> (s: String)
        ensures
            s@ == self.text(),
    {
        hex(self.0.as_slice())
    }
}

impl PartialEq for ConsensusHash {
    fn eq(&self, other: &Self) -> (r: bool) {
        let r = same_bytes(self.0.as_slice(), other.0.as_slice());
        proof {
            assert(r ==> self.0 =~= other.0);
        }
        r
    }
}

impl vstd::std_specs::cmp::PartialEqSpecImpl for ConsensusHash {
    open spec fn obeys_eq_spec() -> bool {
        true
    }

    open spec fn eq_spec(&self, other: &Self) -> bool {
        *self == *other
    }
}

impl Eq for ConsensusHash {

}

impl ConsensusHash {
    /// The text spells the identifier: two lower-case digits for each byte. Two
    /// identifiers with the same text are the same.
    pub proof fn text_spells_the_bytes(self, other: Self)
        ensures
            self.text().len() == 40,
            forall|i: int|
                0 <= i < 20 ==> #[trigger] self.0[i] == 16 * hex_digit_value(self.text()[2 * i])
                    + hex_digit_value(self.text()[2 * i + 1]),
            self.text() == other.text() ==> self == other,
    {
        hex_reads_back(self.0@);
        hex_reads_back(other.0@);
        assert forall|i: int| 0 <= i < 20 && self.text() == other.text() implies self.0[i]
            == other.0[i] by {
            assert(self.0@[i] == other.0@[i]);
        }
        assert(self.text() == other.text() ==> self.0 =~= other.0);
    }

    /// Two identifiers compare equal exactly if each byte is the same.
    pub proof fn equality_is_of_every_byte(self, other: Self)
        ensures
            self.eq_spec(&other) <==> forall|i: int| 0 <= i < 20 ==> self.0[i] == other.0[i],
    {
        if forall|i: int| 0 <= i < 20 ==> self.0[i] == other.0[i] {
            assert(self.0 =~= other.0);
        }
    }
}

/// Hash of a Stacks block header.
#[derive(Debug, Clone, Copy)]
pub struct BlockHeaderHash(pub [u8; 32]);

impl BlockHeaderHash {
    /// The identifier in lower-case hexadecimal.
    pub open spec fn text(self) -> Seq<char> {
        hex_text(self.0@)
    }

    /// Renders the identifier in lower-case hexadecimal.
    pub fn to_hex(&self) -> (s: String)
        ensures
            s@ == self.text(),
    {
        hex(self.0.as_slice())
    }
}

impl PartialEq for BlockHeaderHash {
    fn eq(&self, other: &Self) -> (r: bool) {
        let r = same_bytes(self.0.as_slice(), other.0.as_slice());
        proof {
            assert(r ==> self.0 =~= other.0);
        }
        r
    }
}

impl vstd::std_specs::cmp::PartialEqSpecImpl for BlockHeaderHash {
    open spec fn obeys_eq_spec() -> bool {
        true
    }

    open spec fn eq_spec(&self, other: &Self) -> bool {
        *self == *other
    }
}

impl Eq for BlockHeaderHash {

}

impl BlockHeaderHash {
    /// The text spells the identifier: two lower-case digits for each byte. Two
    /// identifiers with the same text are the same.
    pub proof fn text_spells_the_bytes(self, other: Self)
        ensures
            self.text().len() == 64,
            forall|i: int|
                0 <= i < 32 ==> #[trigger] self.0[i] == 16 * hex_digit_value(self.text()[2 * i])
                    + hex_digit_value(self.text()[2 * i + 1]),
            self.text() == other.text() ==> self == other,
    {
        hex_reads_back(self.0@);
        hex_reads_back(other.0@);
        assert forall|i: int| 0 <= i < 32 && self.text() == other.text() implies self.0[i]
            == other.0[i] by {
            assert(self.0@[i] == other.0@[i]);
        }
        assert(self.text() == other.text() ==> self.0 =~= other.0);
    }

    /// Two identifiers compare equal exactly if each byte is the same.
    pub proof fn equality_is_of_every_byte(self, other: Self)
        ensures
            self.eq_spec(&other) <==> forall|i: int| 0 <= i < 32 ==> self.0[i] == other.0[i],
    {
        if forall|i: int| 0 <= i < 32 ==> self.0[i] == other.0[i] {
            assert(self.0 =~= other.0);
        }
    }
}

/// Names a sortition across forks of the burn chain.
#[derive(Debug, Clone, Copy)]
pub struct SortitionId(pub [u8; 32]);

impl SortitionId {
    /// The identifier in lower-case hexadecimal.
    pub open spec fn text(self) -> Seq<char> {
        hex_text(self.0@)
    }

    /// Renders the identifier in lower-case hexadecimal.
    pub fn to_hex(&self) -> (s: String)
        ensures
            s@ == self.text(),
    {
        hex(self.0.as_slice())
    }
}

impl PartialEq for SortitionId {
    fn eq(&self, other: &Self) -> (r: bool) {
        let r = same_bytes(self.0.as_slice(), other.0.as_slice());
        proof {
            assert(r ==> self.0 =~= other.0);
        }
        r
    }
}

impl vstd::std_specs::cmp::PartialEqSpecImpl for SortitionId {
    open spec fn obeys_eq_spec() -> bool {
        true
    }

    open spec fn eq_spec(&self, other: &Self) -> bool {
        *self == *other
    }
}

impl Eq for SortitionId {

}

impl SortitionId {
    /// The text spells the identifier: two lower-case digits for each byte. Two
    /// identifiers with the same text are the same.
    pub proof fn text_spells_the_bytes(self, other: Self)
        ensures
            self.text().len() == 64,
            forall|i: int|
                0 <= i < 32 ==> #[trigger] self.0[i] == 16 * hex_digit_value(self.text()[2 * i])
                    + hex_digit_value(self.text()[2 * i + 1]),
            self.text() == other.text() ==> self == other,
    {
        hex_reads_back(self.0@);
        hex_reads_back(other.0@);
        assert forall|i: int| 0 <= i < 32 && self.text() == other.text() implies self.0[i]
            == other.0[i] by {
            assert(self.0@[i] == other.0@[i]);
        }
        assert(self.text() == other.text() ==> self.0 =~= other.0);
    }

    /// Two identifiers compare equal exactly if each byte is the same.
    pub proof fn equality_is_of_every_byte(self, other: Self)
        ensures
            self.eq_spec(&other) <==> forall|i: int| 0 <= i < 32 ==> self.0[i] == other.0[i],
    {
        if forall|i: int| 0 <= i < 32 ==> self.0[i] == other.0[i] {
            assert(self.0 =~= other.0);
        }
    }
}

/// Names a Stacks block: derived from its consensus hash and its header hash.
#[derive(Debug, Clone, Copy)]
pub struct StacksBlockId(pub [u8; 32]);

impl StacksBlockId {
    /// The identifier in lower-case hexadecimal.
    pub open spec fn text(self) -> Seq<char> {
        hex_text(self.0@)
    }

    /// Renders the identifier in lower-case hexadecimal.
    pub fn to_hex(&self) -> (s: String)
        ensures
            s@ == self.text(),
    {
        hex(self.0.as_slice())
    }
}

impl PartialEq for StacksBlockId {
    fn eq(&self, other: &Self) -> (r: bool) {
        let r = same_bytes(self.0.as_slice(), other.0.as_slice());
        proof {
            assert(r ==> self.0 =~= other.0);
        }
        r
    }
}

impl vstd::std_specs::cmp::PartialEqSpecImpl for StacksBlockId {
    open spec fn obeys_eq_spec() -> bool {
        true
    }

    open spec fn eq_spec(&self, other: &Self) -> bool {
        *self == *other
    }
}

impl Eq for StacksBlockId {

}

impl StacksBlockId {
    /// The text spells the identifier: two lower-case digits for each byte. Two
    /// identifiers with the same text are the same.
    pub proof fn text_spells_the_bytes(self, other: Self)
        ensures
            self.text().len() == 64,
            forall|i: int|
                0 <= i < 32 ==> #[trigger] self.0[i] == 16 * hex_digit_value(self.text()[2 * i])
                    + hex_digit_value(self.text()[2 * i + 1]),
            self.text() == other.text() ==> self == other,
    {
        hex_reads_back(self.0@);
        hex_reads_back(other.0@);
        assert forall|i: int| 0 <= i < 32 && self.text() == other.text() implies self.0[i]
            == other.0[i] by {
            assert(self.0@[i] == other.0@[i]);
        }
        assert(self.text() == other.text() ==> self.0 =~= other.0);
    }

    /// Two identifiers compare equal exactly if each byte is the same.
    pub proof fn equality_is_of_every_byte(self, other: Self)
        ensures
            self.eq_spec(&other) <==> forall|i: int| 0 <= i < 32 ==> self.0[i] == other.0[i],
    {
        if forall|i: int| 0 <= i < 32 ==> self.0[i] == other.0[i] {
            assert(self.0 =~= other.0);
        }
    }
}

} // verus!
