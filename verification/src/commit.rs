//! How a node reports what became of a submitted transaction, and how that report is taken.
use crate::digest::{
    base64_decoded, base64_error, base64_is_read_back, base64_text, hash_text, read_base64,
    same_bytes, upper_hex,
};
use crate::error::{outcome, protocol, ErrorView, ProcessError, TxError, TxErrorView};
use crate::message::optional_array;
use crate::receipt::{Event, Receipt, ReceiptView};
use vstd::prelude::*;

verus! {

/// How the application found a transaction when it decided whether to admit it.
#[derive(Clone, Debug, PartialEq, Eq)]
pub struct CheckResult {
    pub code: u32,
    pub codespace: String,
    pub log: String,
}

/// What a [`CheckResult`] says.
pub struct CheckResultView {
    pub code: u32,
    pub codespace: Seq<char>,
    pub log: Seq<char>,
}

impl View for CheckResult {
    type V = CheckResultView;

    open spec fn view(&self) -> CheckResultView {
        CheckResultView { code: self.code, codespace: self.codespace@, log: self.log@ }
    }
}

/// How the execution of a transaction went.
#[derive(Clone, Debug, PartialEq, Eq)]
pub struct ExecResult {
    pub code: u32,
    pub codespace: String,
    pub log: String,
    pub gas_wanted: i64,
    pub gas_used: i64,
    /// The base64 text of what the messages returned.
    pub data: Vec<u8>,
    pub events: Vec<Event>,
}

/// What an [`ExecResult`] says.
pub struct ExecResultView {
    pub code: u32,
    pub codespace: Seq<char>,
    pub log: Seq<char>,
    pub gas_wanted: i64,
    pub gas_used: i64,
    pub data: Seq<u8>,
    pub events: Seq<Event>,
}

impl View for ExecResult {
    type V = ExecResultView;

    open spec fn view(&self) -> ExecResultView {
        ExecResultView {
            code: self.code,
            codespace: self.codespace@,
            log: self.log@,
            gas_wanted: self.gas_wanted,
            gas_used: self.gas_used,
            data: self.data@,
            events: self.events@,
        }
    }
}

/// What a node reports of a transaction once it is committed, or refused.
#[derive(Clone, Debug, PartialEq, Eq)]
pub struct CommitResponse {
    /// The hash that the node computed, if it reports one.
    pub hash: Option<[u8; 32]>,
    pub check_tx: CheckResult,
    pub tx_result: ExecResult,
    /// The height of the block that holds the transaction; zero where none does.
    pub height: u64,
}

/// What a [`CommitResponse`] says.
pub struct CommitView {
    pub hash: Option<Seq<u8>>,
    pub check_tx: CheckResultView,
    pub tx_result: ExecResultView,
    pub height: u64,
}

impl View for CommitResponse {
    type V = CommitView;

    open spec fn view(&self) -> CommitView {
        CommitView {
            hash: optional_array(self.hash),
            check_tx: self.check_tx@,
            tx_result: self.tx_result@,
            height: self.height,
        }
    }
}

/// The receipt of a committed transaction whose returned data is `data`.
pub open spec fn receipt_of(response: CommitView, hash: Seq<u8>, data: Seq<u8>) -> ReceiptView {
    ReceiptView {
        hash: upper_hex(hash),
        height: response.height,
        code: response.tx_result.code,
        codespace: response.tx_result.codespace,
        log: response.tx_result.log,
        gas_wanted: response.tx_result.gas_wanted as u64,
        gas_used: response.tx_result.gas_used as u64,
        data,
        events: response.tx_result.events,
    }
}

/// What is taken from the report on the transaction with the hash `expected`.
///
/// A receipt takes a matching hash, an admitted transaction, a positive height, gas that is not
/// negative, readable data, and an execution that did not fail. A refused admission and a failed
/// execution are rejections by the application; everything else that is amiss is not.
pub open spec fn commit_outcome(response: CommitView, expected: Seq<u8>) -> Result<
    ReceiptView,
    ErrorView,
> {
    if response.hash != Some(expected) {
        Err(
            ErrorView::Protocol("committed response hash differs from the signed transaction"@),
        )
    } else if response.check_tx.code != 0 {
        Err(
            ErrorView::Rejected(
                TxErrorView::CheckTx {
                    code: response.check_tx.code,
                    codespace: response.check_tx.codespace,
                    log: response.check_tx.log,
                    hash: upper_hex(expected),
                },
            ),
        )
    } else if response.height == 0 {
        Err(ErrorView::Protocol("response has no positive committed height"@))
    } else if response.tx_result.gas_used < 0 || response.tx_result.gas_wanted < 0 {
        Err(ErrorView::Protocol("out of range integral type conversion attempted"@))
    } else {
        match base64_decoded(response.tx_result.data) {
            Err(text) => Err(ErrorView::Protocol(text)),
            Ok(data) => if response.tx_result.code != 0 {
                Err(
                    ErrorView::Rejected(
                        TxErrorView::Execution {
                            code: response.tx_result.code,
                            codespace: response.tx_result.codespace,
                            log: response.tx_result.log,
                            hash: upper_hex(expected),
                            response: receipt_of(response, expected, data),
                        },
                    ),
                )
            } else {
                Ok(receipt_of(response, expected, data))
            },
        }
    }
}

/// Takes the report on the transaction with the hash `expected`.
pub fn committed(response: CommitResponse, expected: &[u8; 32]) -> (result: Result<
    Receipt,
    ProcessError,
>)
    ensures
        outcome(result) == commit_outcome(response@, expected@),
{
    let matches_expected: bool = match &response.hash {
        Some(hash) => same_bytes(hash, expected),
        None => false,
    };
    if !matches_expected {
        return Err(protocol("committed response hash differs from the signed transaction"));
    }
    if response.check_tx.code != 0 {
        return Err(
            ProcessError::from(
                TxError::CheckTx {
                    code: response.check_tx.code,
                    codespace: response.check_tx.codespace,
                    log: response.check_tx.log,
                    hash: hash_text(expected),
                },
            ),
        );
    }
    if response.height == 0 {
        return Err(protocol("response has no positive committed height"));
    }
    let result = response.tx_result;
    if result.gas_used < 0 || result.gas_wanted < 0 {
        return Err(protocol("out of range integral type conversion attempted"));
    }
    let data = match read_base64(&result.data) {
        Ok(data) => data,
        Err(text) => return Err(ProcessError::Protocol(text)),
    };
    let receipt = Receipt {
        hash: hash_text(expected),
        height: response.height,
        code: result.code,
        codespace: result.codespace,
        log: result.log,
        gas_wanted: result.gas_wanted as u64,
        gas_used: result.gas_used as u64,
        data,
        events: result.events,
    };
    if receipt.code != 0 {
        return Err(
            ProcessError::from(
                TxError::Execution {
                    code: receipt.code,
                    codespace: receipt.codespace.clone(),
                    log: receipt.log.clone(),
                    hash: receipt.hash.clone(),
                    response: Box::new(receipt),
                },
            ),
        );
    }
    Ok(receipt)
}

/// An admission check alone is never an execution: a receipt comes only of a report that names the
/// transaction, that admits it, that commits it at a positive height, and whose execution did not
/// fail. The receipt keeps the height, the log, the gas and the events as they were reported, and
/// its data is what the reported base64 text stands for.
pub proof fn receipt_needs_a_matching_commit(response: CommitView, expected: Seq<u8>)
    requires
        commit_outcome(response, expected) is Ok,
    ensures
        response.hash == Some(expected),
        response.check_tx.code == 0,
        response.height > 0,
        response.tx_result.code == 0,
        ({
            let receipt = commit_outcome(response, expected)->Ok_0;
            &&& receipt.hash == upper_hex(expected)
            &&& receipt.height == response.height
            &&& receipt.code == 0
            &&& receipt.log == response.tx_result.log
            &&& receipt.gas_wanted == response.tx_result.gas_wanted
            &&& receipt.gas_used == response.tx_result.gas_used
            &&& receipt.events == response.tx_result.events
            &&& response.tx_result.data == base64_text(receipt.data)
        }),
{
}

/// A report is taken as a rejection by the application only where it names the transaction and says
/// so itself: the application did not admit it, or committed it and then failed to execute it. A
/// failed execution keeps the log, the data, the gas and the events that were committed with it.
pub proof fn rejection_is_explicit(response: CommitView, expected: Seq<u8>, error: TxErrorView)
    requires
        commit_outcome(response, expected) == Err::<ReceiptView, _>(ErrorView::Rejected(error)),
    ensures
        response.hash == Some(expected),
        match error {
            TxErrorView::Simulation { .. } => false,
            TxErrorView::CheckTx { code, codespace, log, hash } => {
                &&& code != 0 && code == response.check_tx.code
                &&& codespace == response.check_tx.codespace && log == response.check_tx.log
                &&& hash == upper_hex(expected)
            },
            TxErrorView::Execution { code, codespace, log, hash, response: kept } => {
                &&& response.check_tx.code == 0 && response.height > 0
                &&& code != 0 && code == response.tx_result.code
                &&& codespace == response.tx_result.codespace && log == response.tx_result.log
                &&& hash == upper_hex(expected) && kept.hash == hash
                &&& kept.log == log && kept.height == response.height
                &&& kept.gas_wanted == response.tx_result.gas_wanted
                &&& kept.gas_used == response.tx_result.gas_used
                &&& kept.events == response.tx_result.events
                &&& response.tx_result.data == base64_text(kept.data)
            },
        },
{
}

/// A report says all that it holds.
pub proof fn a_report_says_what_it_holds(response: CommitResponse)
    ensures
        response@.hash == optional_array(response.hash),
        response@.height == response.height,
        response@.check_tx.code == response.check_tx.code,
        response@.check_tx.codespace == response.check_tx.codespace@,
        response@.check_tx.log == response.check_tx.log@,
        response@.tx_result.code == response.tx_result.code,
        response@.tx_result.codespace == response.tx_result.codespace@,
        response@.tx_result.log == response.tx_result.log@,
        response@.tx_result.gas_wanted == response.tx_result.gas_wanted,
        response@.tx_result.gas_used == response.tx_result.gas_used,
        response@.tx_result.data == response.tx_result.data@,
        response@.tx_result.events == response.tx_result.events@,
{
}

/// A transaction that was admitted, committed and executed without a failure always gives a
/// receipt, and the receipt is that of the report in every part.
pub proof fn a_sound_commit_gives_its_receipt(
    response: CommitView,
    expected: Seq<u8>,
    data: Seq<u8>,
    gas_used: u64,
    gas_wanted: u64,
)
    requires
        response.hash == Some(expected),
        response.check_tx.code == 0,
        response.height > 0,
        response.tx_result.gas_used == gas_used,
        response.tx_result.gas_wanted == gas_wanted,
        response.tx_result.data == base64_text(data),
    ensures
        ({
            let receipt = ReceiptView {
                hash: upper_hex(expected),
                height: response.height,
                code: response.tx_result.code,
                codespace: response.tx_result.codespace,
                log: response.tx_result.log,
                gas_wanted,
                gas_used,
                data,
                events: response.tx_result.events,
            };
            if response.tx_result.code == 0 {
                commit_outcome(response, expected) == Ok::<_, ErrorView>(receipt)
            } else {
                commit_outcome(response, expected) == Err::<ReceiptView, _>(
                    ErrorView::Rejected(
                        TxErrorView::Execution {
                            code: response.tx_result.code,
                            codespace: response.tx_result.codespace,
                            log: response.tx_result.log,
                            hash: upper_hex(expected),
                            response: receipt,
                        },
                    ),
                )
            }
        }),
{
    base64_is_read_back(data, response.tx_result.data);
}

/// Whatever else is amiss with a report, the first fault decides: another hash, then a refused
/// admission, then a height of zero, then gas below zero, then data that cannot be read.
pub proof fn the_first_fault_of_a_report_decides(response: CommitView, expected: Seq<u8>)
    ensures
        response.hash != Some(expected) ==> commit_outcome(response, expected) == Err::<
            ReceiptView,
            _,
        >(ErrorView::Protocol("committed response hash differs from the signed transaction"@)),
        response.hash == Some(expected) && response.check_tx.code != 0 ==> commit_outcome(
            response,
            expected,
        ) == Err::<ReceiptView, _>(
            ErrorView::Rejected(
                TxErrorView::CheckTx {
                    code: response.check_tx.code,
                    codespace: response.check_tx.codespace,
                    log: response.check_tx.log,
                    hash: upper_hex(expected),
                },
            ),
        ),
        response.hash == Some(expected) && response.check_tx.code == 0 && response.height == 0
            ==> commit_outcome(response, expected) == Err::<ReceiptView, _>(
            ErrorView::Protocol("response has no positive committed height"@),
        ),
        response.hash == Some(expected) && response.check_tx.code == 0 && response.height > 0 && (
        response.tx_result.gas_used < 0 || response.tx_result.gas_wanted < 0) ==> commit_outcome(
            response,
            expected,
        ) == Err::<ReceiptView, _>(
            ErrorView::Protocol("out of range integral type conversion attempted"@),
        ),
        response.hash == Some(expected) && response.check_tx.code == 0 && response.height > 0
            && response.tx_result.gas_used >= 0 && response.tx_result.gas_wanted >= 0 && (forall|
            data: Seq<u8>,
        | #[trigger]
            base64_text(data) != response.tx_result.data) ==> commit_outcome(response, expected)
            == Err::<ReceiptView, _>(
            ErrorView::Protocol(base64_error(response.tx_result.data)),
        ),
{
}

} // verus!
