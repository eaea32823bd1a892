//! What the operations of a test run cost.
use crate::names::NameMap;
use crate::receipt::{Receipt, ReceiptView};
use vstd::prelude::*;

verus! {

/// What one operation cost, and from where it was called.
#[derive(Clone, Debug, PartialEq, Eq)]
pub struct GasEntry {
    pub gas_wanted: u64,
    pub gas_used: u64,
    pub file_name: String,
    pub line_number: u32,
}

/// What a [`GasEntry`] says.
pub struct GasEntryView {
    pub gas_wanted: u64,
    pub gas_used: u64,
    pub file_name: Seq<char>,
    pub line_number: u32,
}

impl View for GasEntry {
    type V = GasEntryView;

    open spec fn view(&self) -> GasEntryView {
        GasEntryView {
            gas_wanted: self.gas_wanted,
            gas_used: self.gas_used,
            file_name: self.file_name@,
            line_number: self.line_number,
        }
    }
}

/// The costs by contract, and for each contract by operation.
pub type GasReport = NameMap<NameMap<GasEntry>>;

/// What a [`GasReport`] says.
pub type GasReportView = Map<Seq<char>, Map<Seq<char>, GasEntryView>>;

/// What an optional report says.
pub open spec fn report_view(report: Option<GasReport>) -> Option<GasReportView> {
    match report {
        Some(report) => Some(report@),
        None => None,
    }
}

/// The name of an operation in the report: its kind, two underscores, and its own name.
pub open spec fn operation_key(kind: Seq<char>, operation: Seq<char>) -> Seq<char> {
    kind + "__"@ + operation
}

/// The operations of `contract` in the report: none, where it does not occur.
pub open spec fn operations_of(report: GasReportView, contract: Seq<char>) -> Map<
    Seq<char>,
    GasEntryView,
> {
    if report.contains_key(contract) {
        report[contract]
    } else {
        Map::empty()
    }
}

/// The entry for an operation that `receipt` is the outcome of.
pub open spec fn entry_of(receipt: ReceiptView, file: Seq<char>, line: u32) -> GasEntryView {
    GasEntryView {
        gas_wanted: receipt.gas_wanted,
        gas_used: receipt.gas_used,
        file_name: file,
        line_number: line,
    }
}

/// The report after an operation. Where no report is kept, none is.
pub open spec fn recorded(
    report: Option<GasReportView>,
    contract: Seq<char>,
    operation: Seq<char>,
    kind: Seq<char>,
    entry: GasEntryView,
) -> Option<GasReportView> {
    match report {
        Some(report) => Some(
            report.insert(
                contract,
                operations_of(report, contract).insert(operation_key(kind, operation), entry),
            ),
        ),
        None => None,
    }
}

/// Enters what an operation cost, in place of an earlier entry for the same operation.
pub fn record(
    report: &mut Option<GasReport>,
    contract: &str,
    operation: &str,
    kind: &str,
    receipt: &Receipt,
    file: &str,
    line: u32,
)
    ensures
        report_view(*final(report)) == recorded(
            report_view(*old(report)),
            contract@,
            operation@,
            kind@,
            entry_of(receipt@, file@, line),
        ),
{
    match report {
        Some(report) => {
            let ghost earlier = report@;
            let mut operations = match report.remove(contract) {
                Some(operations) => operations,
                None => NameMap::new(),
            };
            let key: String = kind.to_owned().concat("__").concat(operation);
            let entry = GasEntry {
                gas_wanted: receipt.gas_wanted,
                gas_used: receipt.gas_used,
                file_name: file.to_owned(),
                line_number: line,
            };
            let ghost before = operations@;
            operations.insert(&key, entry);
            report.insert(contract, operations);
            assert(report@ =~= earlier.insert(contract@, before.insert(key@, entry@)));
        },
        None => {},
    }
}

/// Nothing is recorded where no report is kept; where one is, the entry of the operation is the new
/// one, and every other entry, of this contract and of every other, is as it was.
pub proof fn recording_changes_one_entry(
    report: Option<GasReportView>,
    contract: Seq<char>,
    operation: Seq<char>,
    kind: Seq<char>,
    entry: GasEntryView,
)
    ensures
        ({
            let after = recorded(report, contract, operation, kind, entry);
            let key = operation_key(kind, operation);
            match report {
                None => after is None,
                Some(before) => {
                    &&& after is Some
                    &&& operations_of(after->0, contract).contains_key(key)
                    &&& operations_of(after->0, contract)[key] == entry
                    &&& operations_of(after->0, contract).remove(key) == operations_of(
                        before,
                        contract,
                    ).remove(key)
                    &&& after->0.remove(contract) == before.remove(contract)
                },
            }
        }),
{
    if report is Some {
        let before = report->0;
        let after = recorded(report, contract, operation, kind, entry)->0;
        let key = operation_key(kind, operation);
        assert(operations_of(after, contract).remove(key) =~= operations_of(
            before,
            contract,
        ).remove(key));
        assert(after.remove(contract) =~= before.remove(contract));
    }
}

/// The entry of an operation holds the gas of its receipt and the place that it was called from,
/// and stands under the kind and the name of the operation, both whole.
pub proof fn entries_hold_the_gas_of_the_receipt(
    report: GasReportView,
    contract: Seq<char>,
    operation: Seq<char>,
    kind: Seq<char>,
    receipt: ReceiptView,
    file: Seq<char>,
    line: u32,
)
    ensures
        ({
            let after = recorded(
                Some(report),
                contract,
                operation,
                kind,
                entry_of(receipt, file, line),
            );
            let key = kind + "__"@ + operation;
            &&& after is Some
            &&& after->0.dom() == report.dom().insert(contract)
            &&& after->0[contract].contains_key(key)
            &&& after->0[contract][key].gas_wanted == receipt.gas_wanted
            &&& after->0[contract][key].gas_used == receipt.gas_used
            &&& after->0[contract][key].file_name == file
            &&& after->0[contract][key].line_number == line
            &&& forall|other: Seq<char>|
                other != key ==> (#[trigger] after->0[contract].contains_key(other) <==> (
                report.contains_key(contract) && report[contract].contains_key(other)))
            &&& forall|other: Seq<char>|
                other != key && report.contains_key(contract) && report[contract].contains_key(
                    other,
                ) ==> #[trigger] after->0[contract][other] == report[contract][other]
            &&& forall|other: Seq<char>|
                other != contract && report.contains_key(other) ==> #[trigger] after->0[other]
                    == report[other]
        }),
{
    let after = recorded(Some(report), contract, operation, kind, entry_of(receipt, file, line));
    assert(after->0.dom() =~= report.dom().insert(contract));
}

/// An entry and a report say all that they hold.
pub proof fn entries_say_what_they_hold(entry: GasEntry, report: GasReport)
    ensures
        entry@.gas_wanted == entry.gas_wanted,
        entry@.gas_used == entry.gas_used,
        entry@.file_name == entry.file_name@,
        entry@.line_number == entry.line_number,
        report_view(Some(report)) == Some(report@),
        report_view(None) is None,
{
}

} // verus!
