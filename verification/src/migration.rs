//! Upgrading stored asset records from older layouts to the current one.

use vstd::prelude::*;

use crate::kitty::Kitty;

verus! {

/// The record layout before names existed: the identity payload alone.
#[derive(Clone, Copy, PartialEq, Eq, Debug)]
pub struct V0Kitty(pub [u8; 16]);

/// The record layout that introduced a 4-byte name.
#[derive(Clone, Copy, PartialEq, Eq, Debug)]
pub struct V1Kitty {
    pub dna: [u8; 16],
    pub name: [u8; 4],
}

/// The name given to a record that predates the name field: the
/// ASCII bytes of `"abcdefgh"`.
pub open spec fn v0_default_name() -> Seq<u8> {
    seq![97u8, 98u8, 99u8, 100u8, 101u8, 102u8, 103u8, 104u8]
}

/// The bytes appended to a 4-byte name when it widens to 8 bytes:
/// the ASCII bytes of `"0000"`.
pub open spec fn v1_name_filler() -> Seq<u8> {
    seq![48u8, 48u8, 48u8, 48u8]
}

/// Relates a nameless record to its current-layout form: the identity
/// is kept byte for byte and the name is the pinned default.
pub open spec fn is_v0_upgrade(old_record: V0Kitty, new_record: Kitty) -> bool {
    &&& new_record.dna == old_record.0
    &&& new_record.name@ == v0_default_name()
}

/// Relates a 4-byte-name record to its current-layout form: the
/// identity is kept byte for byte and the name is the old name
/// followed by the filler bytes.
pub open spec fn is_v1_upgrade(old_record: V1Kitty, new_record: Kitty) -> bool {
    &&& new_record.dna == old_record.dna
    &&& new_record.name@ == old_record.name@ + v1_name_filler()
}

/// Rewrites a nameless record into the current layout.
pub fn upgrade_v0(old_record: &V0Kitty) -> (new_record: Kitty)
    ensures
        is_v0_upgrade(*old_record, new_record),
{
    let mut name = [0u8; 8];
    name[0] = 97;
    name[1] = 98;
    name[2] = 99;
    name[3] = 100;
    name[4] = 101;
    name[5] = 102;
    name[6] = 103;
    name[7] = 104;
    assert(name@ =~= v0_default_name());
    Kitty { dna: old_record.0, name }
}

/// Rewrites a 4-byte-name record into the current layout.
pub fn upgrade_v1(old_record: &V1Kitty) -> (new_record: Kitty)
    ensures
        is_v1_upgrade(*old_record, new_record),
{
    let mut name = [0u8; 8];
    name[0] = old_record.name[0];
    name[1] = old_record.name[1];
    name[2] = old_record.name[2];
    name[3] = old_record.name[3];
    name[4] = 48;
    name[5] = 48;
    name[6] = 48;
    name[7] = 48;
    assert(name@ =~= old_record.name@ + v1_name_filler());
    Kitty { dna: old_record.dna, name }
}

/// The asset table as it sits in storage: every record under one of
/// the known layouts, each paired with its identifier. The variant
/// is the recorded schema version.
#[derive(Clone, PartialEq, Eq, Debug)]
pub enum StoredKitties {
    V0(Vec<(u32, V0Kitty)>),
    V1(Vec<(u32, V1Kitty)>),
    V2(Vec<(u32, Kitty)>),
}

impl StoredKitties {
    /// The schema version this table is recorded under.
    pub open spec fn spec_version(self) -> int {
        match self {
            StoredKitties::V0(_) => 0,
            StoredKitties::V1(_) => 1,
            StoredKitties::V2(_) => 2,
        }
    }

    /// Reads the recorded schema version.
    pub fn version(&self) -> (v: u32)
        ensures
            v == self.spec_version(),
    {
        match self {
            StoredKitties::V0(_) => 0,
            StoredKitties::V1(_) => 1,
            StoredKitties::V2(_) => 2,
        }
    }
}

/// Rewrites every stored record into the current layout and records
/// the new version; a table already at the current version is left
/// untouched, so running the migration a second time is a no-op.
/// Identifiers are kept, each identity payload is preserved byte for
/// byte, and a name field that the old layout lacked (in whole or in
/// part) is filled with the pinned default.
pub fn migrate(store: &mut StoredKitties)
    ensures
        final(store).spec_version() == 2,
        old(store).spec_version() < 2 ==> old(store).spec_version() < final(store).spec_version(),
        *old(store) matches StoredKitties::V2(_) ==> *final(store) == *old(store),
        *old(store) matches StoredKitties::V0(old_records) ==> (*final(store)
            matches StoredKitties::V2(new_records) && old_records@.len() == new_records@.len()
            && (forall|i: int|
            0 <= i < old_records@.len() ==> (#[trigger] new_records@[i]).0 == old_records@[i].0
                && is_v0_upgrade(old_records@[i].1, new_records@[i].1))),
        *old(store) matches StoredKitties::V1(old_records) ==> (*final(store)
            matches StoredKitties::V2(new_records) && old_records@.len() == new_records@.len()
            && (forall|i: int|
            0 <= i < old_records@.len() ==> (#[trigger] new_records@[i]).0 == old_records@[i].0
                && is_v1_upgrade(old_records@[i].1, new_records@[i].1))),
{
    let upgraded: Option<Vec<(u32, Kitty)>> = match &*store {
        StoredKitties::V0(records) => {
            let mut new_records: Vec<(u32, Kitty)> = Vec::new();
            let mut i: usize = 0;
            while i < records.len()
                invariant
                    i <= records@.len(),
                    new_records@.len() == i,
                    forall|j: int|
                        0 <= j < i ==> (#[trigger] new_records@[j]).0 == records@[j].0
                            && is_v0_upgrade(records@[j].1, new_records@[j].1),
                decreases records@.len() - i,
            {
                let (id, old_record) = records[i];
                new_records.push((id, upgrade_v0(&old_record)));
                i += 1;
            }
            Some(new_records)
        },
        StoredKitties::V1(records) => {
            let mut new_records: Vec<(u32, Kitty)> = Vec::new();
            let mut i: usize = 0;
            while i < records.len()
                invariant
                    i <= records@.len(),
                    new_records@.len() == i,
                    forall|j: int|
                        0 <= j < i ==> (#[trigger] new_records@[j]).0 == records@[j].0
                            && is_v1_upgrade(records@[j].1, new_records@[j].1),
                decreases records@.len() - i,
            {
                let (id, old_record) = records[i];
                new_records.push((id, upgrade_v1(&old_record)));
                i += 1;
            }
            Some(new_records)
        },
        StoredKitties::V2(_) => None,
    };
    match upgraded {
        Some(new_records) => {
            *store = StoredKitties::V2(new_records);
        },
        None => {},
    }
}

} // verus!
