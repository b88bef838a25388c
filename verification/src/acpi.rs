use vstd::prelude::*;

verus! {

/// Identifier of the ACPI 2.0 root pointer, 8868e871-e4f1-11d3-bc22-0080c73c8881,
/// as the little-endian reading of its sixteen bytes in memory.
pub const ACPI2_GUID: u128 = 0x81883cc7800022bc11d3e4f18868e871;

/// Identifier of the ACPI 1.0 root pointer, eb9d2d30-2d88-11d3-9a16-0090273fc14d,
/// read the same way.
pub const ACPI_GUID: u128 = 0x4dc13f279000169a11d32d88eb9d2d30;

/// One entry of the firmware's configuration table.
#[derive(Debug, Clone, Copy, PartialEq, Eq, Structural)]
pub struct ConfigTableEntry {
    /// The identifier's sixteen bytes in memory, read as a little-endian number.
    pub guid: u128,
    /// Physical address of the table.
    pub address: u64,
}

/// Some entry carries `guid`.
pub open spec fn has_guid(tables: Seq<ConfigTableEntry>, guid: u128) -> bool {
    exists|i: int| 0 <= i < tables.len() && (#[trigger] tables[i]).guid == guid
}

/// `i` is the first entry that carries `guid`.
pub open spec fn is_first_with(tables: Seq<ConfigTableEntry>, guid: u128, i: int) -> bool {
    &&& 0 <= i < tables.len()
    &&& tables[i].guid == guid
    &&& forall|j: int| 0 <= j < i ==> (#[trigger] tables[j]).guid != guid
}

/// `address` is what the locator reports for `tables`: the first ACPI 2.0
/// entry's address, else the first ACPI 1.0 entry's, else zero.
pub open spec fn is_root_pointer(tables: Seq<ConfigTableEntry>, address: u64) -> bool {
    if has_guid(tables, ACPI2_GUID) {
        exists|i: int| #[trigger] is_first_with(tables, ACPI2_GUID, i) && address == tables[i].address
    } else if has_guid(tables, ACPI_GUID) {
        exists|i: int| #[trigger] is_first_with(tables, ACPI_GUID, i) && address == tables[i].address
    } else {
        address == 0
    }
}

/// The index of the first entry that carries `guid`.
pub fn find_first(tables: &Vec<ConfigTableEntry>, guid: u128) -> (r: Option<usize>)
    ensures
        r is None <==> !has_guid(tables@, guid),
        r is Some ==> is_first_with(tables@, guid, r.unwrap() as int),
{
    let mut k: usize = 0;
    while k < tables.len()
        invariant
            0 <= k <= tables.len(),
            forall|j: int| 0 <= j < k ==> (#[trigger] tables@[j]).guid != guid,
        decreases tables.len() - k,
    {
        if tables[k].guid == guid {
            return Some(k);
        }
        k += 1;
    }
    None
}

/// Finds the ACPI root pointer, preferring the 2.0 identifier. Reports the
/// null address where the table has neither identifier.
pub fn locate(tables: &Vec<ConfigTableEntry>) -> (address: u64)
    ensures
        is_root_pointer(tables@, address),
{
    match find_first(tables, ACPI2_GUID) {
        Some(i) => {
            assert(is_first_with(tables@, ACPI2_GUID, i as int));
            tables[i].address
        },
        None => {
            match find_first(tables, ACPI_GUID) {
                Some(i) => {
                    assert(is_first_with(tables@, ACPI_GUID, i as int));
                    tables[i].address
                },
                None => 0,
            }
        },
    }
}

/// Exactly one address is the root pointer of a table.
pub proof fn lemma_root_pointer_unique(tables: Seq<ConfigTableEntry>, a: u64, b: u64)
    requires
        is_root_pointer(tables, a),
        is_root_pointer(tables, b),
    ensures
        a == b,
{
    if has_guid(tables, ACPI2_GUID) {
        let i = choose|i: int| #[trigger] is_first_with(tables, ACPI2_GUID, i) && a == tables[i].address;
        let j = choose|j: int| #[trigger] is_first_with(tables, ACPI2_GUID, j) && b == tables[j].address;
        if i < j {
            assert(tables[i].guid != ACPI2_GUID);
        }
        if j < i {
            assert(tables[j].guid != ACPI2_GUID);
        }
    } else if has_guid(tables, ACPI_GUID) {
        let i = choose|i: int| #[trigger] is_first_with(tables, ACPI_GUID, i) && a == tables[i].address;
        let j = choose|j: int| #[trigger] is_first_with(tables, ACPI_GUID, j) && b == tables[j].address;
        if i < j {
            assert(tables[i].guid != ACPI_GUID);
        }
        if j < i {
            assert(tables[j].guid != ACPI_GUID);
        }
    }
}

/// A table without either ACPI identifier has the null root pointer.
pub proof fn lemma_missing_acpi_is_null(tables: Seq<ConfigTableEntry>, address: u64)
    requires
        !has_guid(tables, ACPI2_GUID),
        !has_guid(tables, ACPI_GUID),
        is_root_pointer(tables, address),
    ensures
        address == 0,
{
}

} // verus!
