//! Storing every artifact of a directory, one transaction each.
//!
//! Like a transaction, a storage run decides and never performs: it says which file to read, when
//! to submit what was read, and what came of it all.
use crate::artifact::{artifact_name, select_artifacts, selection, stored_name};
use crate::client::{
    confirm_code, confirmed_code_id, store_message, storing_message, ChainClient, StoreResponse,
    StoreResponseView, STORE_CODE,
};
use crate::config::DeployInfoView;
use crate::digest::sha256;
use crate::error::{outcome, plain_outcome, text_outcome, ErrorView, ProcessError};
use crate::gas::{entry_of, recorded, GasReportView};
use crate::message::{access_view, bytes_view, AccessConfig, Any};
use crate::receipt::{store_response_of, Receipt, ReceiptView};
use crate::registry::{code_id_of, with_code_id};
use crate::wire::store_code_encoding;
use vstd::prelude::*;

verus! {

/// A storage run whose next file is to be read.
#[derive(Debug)]
pub struct Reading {
    files: Vec<Vec<u8>>,
    arch: String,
    permission: Option<AccessConfig>,
    place: usize,
    stored: Vec<StoreResponse>,
    name: String,
}

/// A storage run whose next file has been read, and is to be submitted.
#[derive(Debug)]
pub struct Submitting {
    run: Reading,
    code: Vec<u8>,
}

/// How far a storage run has come.
pub struct RunView {
    /// The files of the run, in the order in which they are stored.
    pub files: Seq<Seq<u8>>,
    /// The architecture whose mark is removed from the names.
    pub arch: Seq<char>,
    /// Who may instantiate the code.
    pub permission: Option<(i32, Seq<Seq<char>>)>,
    /// Which of the files is the next one.
    pub place: int,
    /// What came of the files before it.
    pub stored: Seq<StoreResponseView>,
    /// The name under which the next file is stored.
    pub name: Seq<char>,
}

/// The responses of a list.
pub open spec fn responses_view(responses: Seq<StoreResponse>) -> Seq<StoreResponseView> {
    responses.map_values(|response: StoreResponse| response@)
}

impl View for Reading {
    type V = RunView;

    closed spec fn view(&self) -> RunView {
        RunView {
            files: bytes_view(self.files@),
            arch: self.arch@,
            permission: access_view(self.permission),
            place: self.place as int,
            stored: responses_view(self.stored@),
            name: self.name@,
        }
    }
}

impl View for Submitting {
    type V = (RunView, Seq<u8>);

    closed spec fn view(&self) -> (RunView, Seq<u8>) {
        (self.run@, self.code@)
    }
}

/// What a storage run asks of whoever drives it.
#[derive(Debug)]
pub enum StoreStep {
    /// Read the file [`Reading::file`].
    Read(Reading),
    /// Submit the message [`Submitting::message`] in a transaction of its own.
    Submit(Submitting),
    /// Do nothing more: this is what came of the run.
    Done(Result<Vec<StoreResponse>, ProcessError>),
}

/// What a [`StoreStep`] says.
pub enum StoreStepView {
    Read(RunView),
    Submit(RunView, Seq<u8>),
    Done(Result<Seq<StoreResponseView>, ErrorView>),
}

impl View for StoreStep {
    type V = StoreStepView;

    open spec fn view(&self) -> StoreStepView {
        match self {
            StoreStep::Read(run) => StoreStepView::Read(run@),
            StoreStep::Submit(run) => StoreStepView::Submit(run@.0, run@.1),
            StoreStep::Done(Ok(stored)) => StoreStepView::Done(Ok(responses_view(stored@))),
            StoreStep::Done(Err(error)) => StoreStepView::Done(Err(error@)),
        }
    }
}

/// The step that begins with the file at `place`: the run is over where there is none, and fails
/// where its name cannot be used.
pub open spec fn step_at(
    files: Seq<Seq<u8>>,
    arch: Seq<char>,
    permission: Option<(i32, Seq<Seq<char>>)>,
    place: int,
    stored: Seq<StoreResponseView>,
) -> StoreStepView {
    if place >= files.len() {
        StoreStepView::Done(Ok(stored))
    } else {
        match stored_name(files[place], arch) {
            Err(error) => StoreStepView::Done(Err(error)),
            Ok(name) => StoreStepView::Read(
                RunView { files, arch, permission, place, stored, name },
            ),
        }
    }
}

/// The step after a file was read, or could not be read.
pub open spec fn after_reading(run: RunView, code: Result<Seq<u8>, Seq<char>>) -> StoreStepView {
    match code {
        Err(text) => StoreStepView::Done(Err(ErrorView::Io(text))),
        Ok(code) => StoreStepView::Submit(run, code),
    }
}

/// The number of the code that the outcome of a transaction confirms to have been stored.
pub open spec fn confirmation(
    code: Seq<u8>,
    result: Result<ReceiptView, ErrorView>,
) -> Result<StoreResponseView, ErrorView> {
    match result {
        Err(error) => Err(error),
        Ok(receipt) => match confirmed_code_id(receipt, code) {
            Err(error) => Err(error),
            Ok(code_id) => Ok(StoreResponseView { code_id, res: receipt }),
        },
    }
}

/// The step after a transaction: the next file where it confirms that the code was stored, and
/// otherwise the end of the run.
pub open spec fn after_submission(
    run: RunView,
    code: Seq<u8>,
    result: Result<ReceiptView, ErrorView>,
) -> StoreStepView {
    match confirmation(code, result) {
        Err(error) => StoreStepView::Done(Err(error)),
        Ok(response) => step_at(
            run.files,
            run.arch,
            run.permission,
            run.place + 1,
            run.stored.push(response),
        ),
    }
}

/// What is known of the contracts after a transaction. Only a confirmed number is entered.
pub open spec fn contracts_after(
    contracts: Map<Seq<char>, DeployInfoView>,
    run: RunView,
    code: Seq<u8>,
    result: Result<ReceiptView, ErrorView>,
) -> Map<Seq<char>, DeployInfoView> {
    match confirmation(code, result) {
        Err(_) => contracts,
        Ok(response) => with_code_id(contracts, run.name, response.code_id),
    }
}

/// The report after a transaction. Only a confirmed one is entered.
pub open spec fn report_after(
    report: Option<GasReportView>,
    run: RunView,
    code: Seq<u8>,
    result: Result<ReceiptView, ErrorView>,
    file: Seq<char>,
    line: u32,
) -> Option<GasReportView> {
    match confirmation(code, result) {
        Err(_) => report,
        Ok(response) => recorded(
            report,
            run.name,
            "Store"@,
            "Store"@,
            entry_of(response.res, file, line),
        ),
    }
}

fn open_step(
    files: Vec<Vec<u8>>,
    arch: String,
    permission: Option<AccessConfig>,
    place: usize,
    stored: Vec<StoreResponse>,
) -> (step: StoreStep)
    ensures
        step@ == step_at(
            bytes_view(files@),
            arch@,
            access_view(permission),
            place as int,
            responses_view(stored@),
        ),
{
    if place >= files.len() {
        return StoreStep::Done(Ok(stored));
    }
    match artifact_name(&files[place], &arch) {
        Ok(name) => StoreStep::Read(Reading { files, arch, permission, place, stored, name }),
        Err(error) => StoreStep::Done(Err(error)),
    }
}

impl ChainClient {
    /// Begins to store the artifacts of a directory, whose files are listed by their names. `arch`
    /// is the architecture whose mark is removed from them.
    pub fn store_contracts(
        &self,
        files: Vec<Vec<u8>>,
        arch: &str,
        permission: Option<AccessConfig>,
    ) -> (step: StoreStep)
        ensures
            step@ == step_at(
                selection(bytes_view(files@)),
                arch@,
                access_view(permission),
                0,
                Seq::empty(),
            ),
    {
        let stored: Vec<StoreResponse> = Vec::new();
        assert(responses_view(stored@) =~= Seq::empty());
        open_step(select_artifacts(files), arch.to_owned(), permission, 0, stored)
    }
}

impl Reading {
    #[verifier::type_invariant]
    spec fn well_formed(self) -> bool {
        self.place < self.files@.len()
    }

    /// The name of the file that is to be read.
    pub fn file(&self) -> (file: &[u8])
        ensures
            0 <= self@.place < self@.files.len(),
            file@ == self@.files[self@.place],
    {
        proof {
            use_type_invariant(self);
        }
        &self.files[self.place]
    }

    /// Takes what was read, or why it could not be read.
    pub fn read(self, code: Result<Vec<u8>, String>) -> (step: StoreStep)
        ensures
            step@ == after_reading(self@, text_outcome(code)),
    {
        match code {
            Ok(code) => StoreStep::Submit(Submitting { run: self, code }),
            Err(text) => StoreStep::Done(Err(ProcessError::Io(text))),
        }
    }
}

impl Submitting {
    /// The name of the file that is to be submitted.
    pub fn file(&self) -> (file: &[u8])
        ensures
            0 <= self@.0.place < self@.0.files.len(),
            file@ == self@.0.files[self@.0.place],
    {
        self.run.file()
    }

    /// The message with which `sender` stores what was read.
    pub fn message(&self, sender: &str) -> (message: Any)
        ensures
            message@ == (
                STORE_CODE@,
                store_code_encoding(sender@, self@.1, self@.0.permission),
            ),
            message@ == storing_message(sender@, self@.1, self@.0.permission),
    {
        store_message(sender, &self.code, &self.run.permission)
    }

    /// The number of the code that a receipt confirms to have been stored.
    pub fn confirm(&self, receipt: &Receipt) -> (result: Result<u64, ProcessError>)
        ensures
            plain_outcome(result) == confirmed_code_id(receipt@, self@.1),
    {
        confirm_code(receipt, &self.code)
    }

    /// Takes what came of the transaction. `file` and `line` are from where the run was called.
    pub fn submitted(
        self,
        client: &mut ChainClient,
        result: Result<Receipt, ProcessError>,
        file: &str,
        line: u32,
    ) -> (step: StoreStep)
        ensures
            step@ == after_submission(self@.0, self@.1, outcome(result)),
            final(client).contracts() == contracts_after(
                old(client).contracts(),
                self@.0,
                self@.1,
                outcome(result),
            ),
            final(client).report() == report_after(
                old(client).report(),
                self@.0,
                self@.1,
                outcome(result),
                file@,
                line,
            ),
            final(client).chain() == old(client).chain(),
    {
        proof {
            use_type_invariant(&self.run);
        }
        let receipt = match result {
            Ok(receipt) => receipt,
            Err(error) => return StoreStep::Done(Err(error)),
        };
        let run = self.run;
        let response = match client.stored(&run.name, &self.code, receipt, file, line) {
            Ok(response) => response,
            Err(error) => return StoreStep::Done(Err(error)),
        };
        let mut stored = run.stored;
        let ghost before = responses_view(stored@);
        let ghost added = response@;
        stored.push(response);
        assert(responses_view(stored@) =~= before.push(added));
        assert(run.place < run.files.len());
        open_step(run.files, run.arch, run.permission, run.place + 1, stored)
    }
}

/// What happens in a storage run.
pub enum StoreEvent {
    /// A file was read, or could not be read.
    Code(Result<Seq<u8>, Seq<char>>),
    /// A transaction came to its end.
    Submitted(Result<ReceiptView, ErrorView>),
}

/// The step that a storage run has reached after the events, and what is known of the contracts
/// then.
pub open spec fn run_after(
    contracts: Map<Seq<char>, DeployInfoView>,
    first: StoreStepView,
    events: Seq<StoreEvent>,
) -> (StoreStepView, Map<Seq<char>, DeployInfoView>)
    decreases events.len(),
{
    if events.len() == 0 {
        (first, contracts)
    } else {
        let (step, known) = run_after(contracts, first, events.drop_last());
        match (step, events.last()) {
            (StoreStepView::Read(run), StoreEvent::Code(code)) => (after_reading(run, code), known),
            (StoreStepView::Submit(run, code), StoreEvent::Submitted(result)) => (
                after_submission(run, code, result),
                contracts_after(known, run, code, result),
            ),
            _ => arbitrary(),
        }
    }
}

/// Whether every one of the events is what the run had asked for.
pub open spec fn is_storage_run(
    contracts: Map<Seq<char>, DeployInfoView>,
    first: StoreStepView,
    events: Seq<StoreEvent>,
) -> bool
    decreases events.len(),
{
    events.len() > 0 ==> {
        &&& is_storage_run(contracts, first, events.drop_last())
        &&& match run_after(contracts, first, events.drop_last()).0 {
            StoreStepView::Read(_) => events.last() is Code,
            StoreStepView::Submit(_, _) => events.last() is Submitted,
            StoreStepView::Done(_) => false,
        }
    }
}

/// How many transactions a storage run has asked for.
pub open spec fn submissions(
    contracts: Map<Seq<char>, DeployInfoView>,
    first: StoreStepView,
    events: Seq<StoreEvent>,
) -> nat
    decreases events.len(),
{
    let last: nat = if run_after(contracts, first, events).0 is Submit {
        1
    } else {
        0
    };
    if events.len() == 0 {
        last
    } else {
        submissions(contracts, first, events.drop_last()) + last
    }
}

/// What the transactions of a storage run confirmed, in the order in which they did.
pub open spec fn confirmed(
    contracts: Map<Seq<char>, DeployInfoView>,
    first: StoreStepView,
    events: Seq<StoreEvent>,
) -> Seq<StoreResponseView>
    decreases events.len(),
{
    if events.len() == 0 {
        Seq::empty()
    } else {
        let before = confirmed(contracts, first, events.drop_last());
        match (run_after(contracts, first, events.drop_last()).0, events.last()) {
            (StoreStepView::Submit(_, code), StoreEvent::Submitted(result)) => match confirmation(
                code,
                result,
            ) {
                Ok(response) => before.push(response),
                Err(_) => before,
            },
            _ => before,
        }
    }
}

/// What is known of the contracts once the numbers of the first files have been entered, in order.
pub open spec fn entered(
    contracts: Map<Seq<char>, DeployInfoView>,
    files: Seq<Seq<u8>>,
    arch: Seq<char>,
    stored: Seq<StoreResponseView>,
) -> Map<Seq<char>, DeployInfoView>
    decreases stored.len(),
{
    if stored.len() == 0 {
        contracts
    } else {
        with_code_id(
            entered(contracts, files, arch, stored.drop_last()),
            stored_name(files[stored.len() - 1], arch)->Ok_0,
            stored.last().code_id,
        )
    }
}

/// Whether the run is at a file of its own, with a result for each file before it.
spec fn at_file(
    run: RunView,
    files: Seq<Seq<u8>>,
    arch: Seq<char>,
    permission: Option<(i32, Seq<Seq<char>>)>,
    stored: Seq<StoreResponseView>,
) -> bool {
    &&& run.files == files && run.arch == arch && run.permission == permission
    &&& 0 <= run.place < files.len()
    &&& run.stored == stored && stored.len() == run.place
    &&& stored_name(files[run.place], arch) == Ok::<_, ErrorView>(run.name)
}

proof fn lemma_run(
    contracts: Map<Seq<char>, DeployInfoView>,
    files: Seq<Seq<u8>>,
    arch: Seq<char>,
    permission: Option<(i32, Seq<Seq<char>>)>,
    events: Seq<StoreEvent>,
)
    requires
        is_storage_run(
            contracts,
            step_at(files, arch, permission, 0, Seq::empty()),
            events,
        ),
    ensures
        ({
            let first = step_at(files, arch, permission, 0, Seq::empty());
            let (step, known) = run_after(contracts, first, events);
            let stored = confirmed(contracts, first, events);
            let count = submissions(contracts, first, events);
            &&& known == entered(contracts, files, arch, stored)
            &&& match step {
                StoreStepView::Read(run) => at_file(run, files, arch, permission, stored) && count
                    == run.place,
                StoreStepView::Submit(run, _) => at_file(run, files, arch, permission, stored)
                    && count == run.place + 1,
                StoreStepView::Done(Ok(all)) => all == stored && stored.len() == files.len()
                    && count == files.len(),
                StoreStepView::Done(Err(_)) => stored.len() <= count <= files.len()
                    && stored.len() < files.len(),
            }
        }),
    decreases events.len(),
{
    if events.len() > 0 {
        let first = step_at(files, arch, permission, 0, Seq::empty());
        lemma_run(contracts, files, arch, permission, events.drop_last());
        let before = confirmed(contracts, first, events.drop_last());
        let after = confirmed(contracts, first, events);
        if after != before {
            assert(after.drop_last() =~= before);
        }
    }
}

/// A storage run submits no file more than once: its submissions go through the files in their
/// order. At its end, and at every point before it, the registry holds what it held at the start
/// and the numbers that were confirmed since, entered for the files in their order. Where the run
/// succeeds, these are the numbers of all the files, and they are what it returns; where it fails,
/// they are not all.
pub proof fn registry_holds_what_was_confirmed(
    contracts: Map<Seq<char>, DeployInfoView>,
    files: Seq<Seq<u8>>,
    arch: Seq<char>,
    permission: Option<(i32, Seq<Seq<char>>)>,
    events: Seq<StoreEvent>,
)
    requires
        is_storage_run(
            contracts,
            step_at(files, arch, permission, 0, Seq::empty()),
            events,
        ),
    ensures
        ({
            let first = step_at(files, arch, permission, 0, Seq::empty());
            let (step, known) = run_after(contracts, first, events);
            let stored = confirmed(contracts, first, events);
            &&& submissions(contracts, first, events) <= files.len()
            &&& step matches StoreStepView::Submit(run, _) ==> submissions(contracts, first, events)
                == run.place + 1
            &&& known == entered(contracts, files, arch, stored)
            &&& step matches StoreStepView::Done(Ok(all)) ==> all == stored && all.len()
                == files.len()
            &&& step matches StoreStepView::Done(Err(_)) ==> stored.len() < files.len()
        }),
{
    lemma_run(contracts, files, arch, permission, events);
}

/// A transaction that is not confirmed changes neither the registry nor the report; and it is
/// confirmed only where its receipt holds one response, which gives the code a number and names the
/// digest of the very bytes that were sent.
pub proof fn only_matching_storage_is_entered(
    contracts: Map<Seq<char>, DeployInfoView>,
    report: Option<GasReportView>,
    run: RunView,
    code: Seq<u8>,
    result: Result<ReceiptView, ErrorView>,
    file: Seq<char>,
    line: u32,
)
    ensures
        match confirmation(code, result) {
            Err(_) => {
                &&& contracts_after(contracts, run, code, result) == contracts
                &&& report_after(report, run, code, result, file, line) == report
            },
            Ok(response) => {
                &&& response.code_id > 0
                &&& result == Ok::<_, ErrorView>(response.res)
                &&& store_response_of(response.res) == Ok::<_, ErrorView>(
                    (response.code_id, sha256(code)),
                )
                &&& code_id_of(contracts_after(contracts, run, code, result), run.name) == Ok::<
                    _,
                    ErrorView,
                >(response.code_id)
            },
        },
{
}

/// Lists of responses and steps of a run say all that they hold.
pub proof fn steps_say_what_they_hold(
    reading: Reading,
    submitting: Submitting,
    stored: Vec<StoreResponse>,
    error: ProcessError,
    place: int,
)
    ensures
        responses_view(stored@).len() == stored@.len(),
        0 <= place < stored@.len() ==> responses_view(stored@)[place] == stored@[place]@,
        StoreStep::Read(reading)@ == StoreStepView::Read(reading@),
        StoreStep::Submit(submitting)@ == StoreStepView::Submit(submitting@.0, submitting@.1),
        StoreStep::Done(Ok(stored))@ == StoreStepView::Done(Ok(responses_view(stored@))),
        StoreStep::Done(Err(error))@ == StoreStepView::Done(Err(error@)),
{
}

/// A file that has been read is submitted byte for byte, whatever it holds and however long it is.
/// One that cannot be read ends the run with the reason.
pub proof fn a_file_is_submitted_as_it_was_read(run: RunView, code: Seq<u8>, text: Seq<char>)
    ensures
        after_reading(run, Ok(code)) == StoreStepView::Submit(run, code),
        after_reading(run, Err(text)) == StoreStepView::Done(Err(ErrorView::Io(text))),
{
}

/// Every file is read in its turn, under its own name. A name that cannot be used ends the run with
/// the reason, and behind the last file the run ends with all that was stored.
pub proof fn files_are_read_in_turn(
    files: Seq<Seq<u8>>,
    arch: Seq<char>,
    permission: Option<(i32, Seq<Seq<char>>)>,
    place: int,
    stored: Seq<StoreResponseView>,
    name: Seq<char>,
    error: ErrorView,
)
    requires
        0 <= place <= files.len(),
    ensures
        place == files.len() ==> step_at(files, arch, permission, place, stored)
            == StoreStepView::Done(Ok(stored)),
        place < files.len() && stored_name(files[place], arch) == Ok::<_, ErrorView>(name)
            ==> step_at(files, arch, permission, place, stored) == StoreStepView::Read(
            RunView { files, arch, permission, place, stored, name },
        ),
        place < files.len() && stored_name(files[place], arch) == Err::<Seq<char>, _>(error)
            ==> step_at(files, arch, permission, place, stored) == StoreStepView::Done(Err(error)),
{
}

/// Storage is confirmed wherever the receipt gives the code a number and names the digest of the
/// bytes that were sent. The run then goes on with the next file, and the number is entered under
/// the name of this one, with its costs.
pub proof fn matching_storage_is_always_entered(
    contracts: Map<Seq<char>, DeployInfoView>,
    report: Option<GasReportView>,
    run: RunView,
    code: Seq<u8>,
    receipt: ReceiptView,
    code_id: u64,
    file: Seq<char>,
    line: u32,
)
    requires
        code_id > 0,
        store_response_of(receipt) == Ok::<_, ErrorView>((code_id, sha256(code))),
    ensures
        confirmation(code, Ok(receipt)) == Ok::<_, ErrorView>(
            StoreResponseView { code_id, res: receipt },
        ),
        after_submission(run, code, Ok(receipt)) == step_at(
            run.files,
            run.arch,
            run.permission,
            run.place + 1,
            run.stored.push(StoreResponseView { code_id, res: receipt }),
        ),
        contracts_after(contracts, run, code, Ok(receipt)) == with_code_id(
            contracts,
            run.name,
            code_id,
        ),
        report_after(report, run, code, Ok(receipt), file, line) == recorded(
            report,
            run.name,
            "Store"@,
            "Store"@,
            entry_of(receipt, file, line),
        ),
{
}

/// Storage that is not confirmed ends the run: with the failure of the transaction, with the fault
/// of its receipt, or because the number or the digest is not as it has to be.
pub proof fn unconfirmed_storage_ends_the_run(
    run: RunView,
    code: Seq<u8>,
    receipt: ReceiptView,
    error: ErrorView,
    code_id: u64,
    checksum: Seq<u8>,
)
    ensures
        after_submission(run, code, Err(error)) == StoreStepView::Done(Err(error)),
        store_response_of(receipt) == Err::<(u64, Seq<u8>), _>(error) ==> after_submission(
            run,
            code,
            Ok(receipt),
        ) == StoreStepView::Done(Err(error)),
        store_response_of(receipt) == Ok::<_, ErrorView>((code_id, checksum)) && (code_id == 0
            || checksum != sha256(code)) ==> after_submission(run, code, Ok(receipt))
            == StoreStepView::Done(
            Err(
                ErrorView::Protocol(
                    "store response has invalid code ID or a different Wasm checksum"@,
                ),
            ),
        ),
{
}

/// Whatever a storage run submits is what was read last, byte for byte, and that was read from the
/// file whose turn it is: the first submission from the first file, the next one from the next
/// file, and so on, each under the name of its file and with the permission that the run began
/// with.
pub proof fn each_submission_stores_its_own_file(
    contracts: Map<Seq<char>, DeployInfoView>,
    files: Seq<Seq<u8>>,
    arch: Seq<char>,
    permission: Option<(i32, Seq<Seq<char>>)>,
    events: Seq<StoreEvent>,
    run: RunView,
    code: Seq<u8>,
    sender: Seq<char>,
)
    requires
        is_storage_run(
            contracts,
            step_at(files, arch, permission, 0, Seq::empty()),
            events,
        ),
        run_after(contracts, step_at(files, arch, permission, 0, Seq::empty()), events).0
            == StoreStepView::Submit(run, code),
    ensures
        ({
            let first = step_at(files, arch, permission, 0, Seq::empty());
            let turn = submissions(contracts, first, events) - 1;
            &&& events.len() > 0
            &&& events.last() == StoreEvent::Code(Ok(code))
            &&& run_after(contracts, first, events.drop_last()).0 == StoreStepView::Read(run)
            &&& 0 <= turn < files.len()
            &&& run.place == turn
            &&& run.files == files
            &&& run.permission == permission
            &&& storing_message(sender, code, run.permission) == (
                "/cosmwasm.wasm.v1.MsgStoreCode"@,
                store_code_encoding(sender, code, permission),
            )
            &&& stored_name(files[turn], arch) == Ok::<_, ErrorView>(run.name)
            &&& run.stored == confirmed(contracts, first, events)
            &&& run.stored.len() == turn
        }),
{
    lemma_run(contracts, files, arch, permission, events);
    let first = step_at(files, arch, permission, 0, Seq::empty());
    let before = run_after(contracts, first, events.drop_last()).0;
    match before {
        StoreStepView::Read(_) => {},
        StoreStepView::Submit(earlier, sent) => {
            let result = events.last()->Submitted_0;
            assert(after_submission(earlier, sent, result) !is Submit);
        },
        StoreStepView::Done(_) => {},
    }
}

} // verus!
