use vstd::prelude::*;
use crate::client::{
    PcscClient, PcscCmd, CmdView, ClientView, PcscsMonitor, READER_CHECK_TIMEOUT, check_error,
    uuid_error, read_error, data_error, write_error, monitor_start_error, monitor_stop_error,
    has_nul, cuid_invalid_error, cuid_missing_error, reader_name_text, MonitorRequest,
};
use crate::error::ScardError;
use vstd::string::StringSliceAdditionalSpecFns;
use crate::text::c_text_bytes;
use vstd::utf8::{valid_utf8, decode_utf8};

verus! {

/// What the monitoring verb asks of the reader monitor.
#[derive(Debug, Copy, Clone, PartialEq, Eq, Structural)]
pub enum MonitorAction {
    START,
    STOP,
}

/// The state of the card slot, as reported to a handle's callback.
#[derive(Debug, Copy, Clone, PartialEq, Eq, Structural)]
pub enum ScardState {
    PRESENT,
    EMPTY,
    UNKNOWN,
}

/// What a command does to the card, under the name the handle uses.
pub type ScardAction = crate::client::PcscAction;

/// A reader command, under the name the handle uses.
pub type ScardCmd = PcscCmd;

/// Implemented by those who want to hear about the card slot of a handle.
pub trait ScardControl {
    fn scard_monitor(&mut self, status: ScardState);
}

/// A card operation: read the card's UUID, run a read command, or run a
/// write command with the bytes to write.
pub enum CardOp<'a> {
    Uuid,
    Read(&'a PcscCmd),
    Write(&'a PcscCmd, &'a [u8]),
}

/// The mathematical value of a card operation.
pub enum OpView {
    Uuid,
    Read(CmdView),
    Write(CmdView, Seq<u8>),
}

impl<'a> View for CardOp<'a> {
    type V = OpView;

    open spec fn view(&self) -> OpView {
        match self {
            CardOp::Uuid => OpView::Uuid,
            CardOp::Read(cmd) => OpView::Read(cmd@),
            CardOp::Write(cmd, data) => OpView::Write(cmd@, data@),
        }
    }
}

/// What a card operation that succeeded gives back.
pub enum CardOutput {
    Uuid(u64),
    Data(String),
    Written,
}

/// The mathematical value of what a card operation gives back.
pub enum OutputView {
    Uuid(u64),
    Data(Seq<char>),
    Written,
}

impl View for CardOutput {
    type V = OutputView;

    open spec fn view(&self) -> OutputView {
        match self {
            CardOutput::Uuid(u) => OutputView::Uuid(*u),
            CardOutput::Data(s) => OutputView::Data(s@),
            CardOutput::Written => OutputView::Written,
        }
    }
}

/// The first step of a card operation on the reader of a client: the
/// reader is checked for a card.
pub struct ReaderCheck<'a> {
    client: &'a PcscClient,
    op: CardOp<'a>,
}

/// The second step of a card operation: the card's UUID is read.
pub struct CardUuidRead<'a> {
    client: &'a PcscClient,
    op: CardOp<'a>,
}

/// The last step of a read or write operation: the command is run on the
/// card. It only exists once the reader check passed and a UUID was read.
pub struct CardExec<'a> {
    client: &'a PcscClient,
    op: CardOp<'a>,
    card_uuid: u64,
}

/// Where a card operation stands once the card's UUID was read.
pub enum AfterUuid<'a> {
    Done(CardOutput),
    Exec(CardExec<'a>),
}

impl<'a> ReaderCheck<'a> {
    /// The operation this step belongs to.
    pub closed spec fn op(&self) -> OpView {
        self.op@
    }

    /// The client on whose reader the operation runs.
    pub closed spec fn client(&self) -> ClientView {
        self.client@
    }

    /// Starts a card operation on the reader of `client`.
    pub fn new(client: &'a PcscClient, op: CardOp<'a>) -> (res: ReaderCheck<'a>)
        ensures
            res.op() == op@,
            res.client() == client@,
    {
        ReaderCheck { client, op }
    }

    /// How long, in seconds, the reader check waits for a card.
    pub fn timeout(&self) -> (res: u32)
        ensures
            res == READER_CHECK_TIMEOUT,
    {
        READER_CHECK_TIMEOUT
    }

    /// Takes the status of the reader check, with the reader's name and
    /// error message at that time: any status but zero ends the operation
    /// with the check error; zero moves on to reading the UUID.
    pub fn checked(self, status: i32, reader_name: &[u8], reader_error: &[u8]) -> (res: Result<CardUuidRead<'a>, ScardError>)
        ensures
            status != 0 ==> res is Err && res->Err_0@ == check_error(reader_name@, reader_error@),
            status == 0 ==> res is Ok && res->Ok_0.op() == self.op() && res->Ok_0.client() == self.client(),
    {
        match self.client.reader_check(status, reader_name, reader_error) {
            Ok(()) => Ok(CardUuidRead { client: self.client, op: self.op }),
            Err(e) => Err(e),
        }
    }
}

impl<'a> CardUuidRead<'a> {
    /// The operation this step belongs to.
    pub closed spec fn op(&self) -> OpView {
        self.op@
    }

    /// The client on whose reader the operation runs.
    pub closed spec fn client(&self) -> ClientView {
        self.client@
    }

    /// Takes the UUID read from the card: zero ends the operation with the
    /// UUID error; otherwise a UUID operation is done with it, and a read or
    /// write operation moves on to running its command.
    pub fn uuid_read(self, uuid: u64, reader_error: &[u8]) -> (res: Result<AfterUuid<'a>, ScardError>)
        ensures
            uuid == 0 ==> res is Err && res->Err_0@ == uuid_error(reader_error@),
            uuid != 0 && self.op() is Uuid ==> res is Ok && res->Ok_0 is Done
                && res->Ok_0->Done_0@ == OutputView::Uuid(uuid),
            uuid != 0 && !(self.op() is Uuid) ==> res is Ok && res->Ok_0 is Exec
                && res->Ok_0->Exec_0.op() == self.op() && res->Ok_0->Exec_0.uuid() == uuid
                && res->Ok_0->Exec_0.client() == self.client(),
    {
        match self.client.get_uuid(uuid, reader_error) {
            Err(e) => Err(e),
            Ok(u) => {
                match self.op {
                    CardOp::Uuid => Ok(AfterUuid::Done(CardOutput::Uuid(u))),
                    _ => Ok(AfterUuid::Exec(CardExec { client: self.client, op: self.op, card_uuid: u })),
                }
            },
        }
    }
}

/// The bytes handed to the reader with a command: a zeroed buffer of the
/// command's data length for a read, the bytes to write for a write.
pub open spec fn exec_payload(op: OpView) -> Seq<u8> {
    match op {
        OpView::Read(cmd) => Seq::new(cmd.data_len, |i: int| 0u8),
        OpView::Write(_, data) => data,
        OpView::Uuid => Seq::empty(),
    }
}

/// The command that an operation runs on the card.
pub open spec fn exec_cmd(op: OpView) -> CmdView
    recommends
        !(op is Uuid),
{
    match op {
        OpView::Read(cmd) => cmd,
        OpView::Write(cmd, _) => cmd,
        OpView::Uuid => arbitrary(),
    }
}

/// A read or a write runs the very command it was started with, and hands
/// the reader, for a write, exactly the bytes to write, and, for a read, a
/// zeroed buffer of the command's data length.
pub proof fn lemma_exec_uses_the_operation(cmd: CmdView, data: Seq<u8>)
    ensures
        exec_cmd(OpView::Read(cmd)) == cmd,
        exec_cmd(OpView::Write(cmd, data)) == cmd,
        exec_cmd(OpView::Read(cmd)).handle == cmd.handle,
        exec_cmd(OpView::Write(cmd, data)).handle == cmd.handle,
        exec_payload(OpView::Write(cmd, data)) == data,
        exec_payload(OpView::Read(cmd)).len() == cmd.data_len,
        forall|i: int| 0 <= i < cmd.data_len ==> #[trigger] exec_payload(OpView::Read(cmd))[i] == 0u8,
{
}

impl<'a> CardExec<'a> {
    #[verifier::type_invariant]
    closed spec fn exec_inv(self) -> bool {
        &&& self.card_uuid != 0
        &&& !(self.op@ is Uuid)
    }

    /// The operation this step belongs to.
    pub closed spec fn op(&self) -> OpView {
        self.op@
    }

    /// The client on whose reader the operation runs.
    pub closed spec fn client(&self) -> ClientView {
        self.client@
    }

    /// The UUID that the card gave before its command is run.
    pub closed spec fn uuid(&self) -> u64 {
        self.card_uuid
    }

    /// The UUID that the card gave. A command is only ever run on a card that
    /// passed the reader check and gave a nonzero UUID, for a read or write.
    pub fn card_uuid(&self) -> (res: u64)
        ensures
            res == self.uuid(),
            res != 0,
            !(self.op() is Uuid),
    {
        proof { use_type_invariant(self); }
        self.card_uuid
    }

    /// The handle of the command to run.
    pub fn cmd_handle(&self) -> (res: u64)
        ensures
            res == exec_cmd(self.op()).handle,
            self.op() matches OpView::Read(cmd) ==> res == cmd.handle,
            self.op() matches OpView::Write(cmd, _) ==> res == cmd.handle,
    {
        proof { use_type_invariant(self); }
        match self.op {
            CardOp::Read(cmd) => cmd.handle(),
            CardOp::Write(cmd, _) => cmd.handle(),
            CardOp::Uuid => 0,
        }
    }

    /// The bytes to hand to the reader with the command.
    pub fn payload(&self) -> (res: Vec<u8>)
        ensures
            res@ == exec_payload(self.op()),
            self.op() matches OpView::Write(_, data) ==> res@ == data,
            self.op() matches OpView::Read(cmd) ==> res@.len() == cmd.data_len
                && forall|i: int| 0 <= i < res@.len() ==> res@[i] == 0u8,
    {
        proof { use_type_invariant(self); }
        match self.op {
            CardOp::Read(cmd) => PcscClient::data_buffer(cmd),
            CardOp::Write(_, data) => {
                let mut out: Vec<u8> = Vec::new();
                let mut i: usize = 0;
                while i < data.len()
                    invariant
                        i <= data@.len(),
                        out@ == data@.subrange(0, i as int),
                    decreases data@.len() - i,
                {
                    out.push(data[i]);
                    i = i + 1;
                    assert(out@ == data@.subrange(0, i as int));
                }
                assert(data@.subrange(0, i as int) == data@);
                out
            },
            CardOp::Uuid => Vec::new(),
        }
    }

    /// Takes the status of the command and the buffer it filled: a read
    /// gives the C string in the buffer as text, a write gives nothing; a
    /// negative status, or read data that is not UTF-8, is an error.
    pub fn executed(self, status: i32, buffer: &[u8], reader_error: &[u8]) -> (res: Result<CardOutput, ScardError>)
        ensures
            status < 0 && self.op() is Read ==> res is Err && res->Err_0@ == read_error(exec_cmd(self.op()), reader_error@),
            status >= 0 && self.op() is Read && !valid_utf8(c_text_bytes(buffer@))
                ==> res is Err && res->Err_0@ == data_error(exec_cmd(self.op())),
            status >= 0 && self.op() is Read && valid_utf8(c_text_bytes(buffer@))
                ==> res is Ok && res->Ok_0@ == OutputView::Data(decode_utf8(c_text_bytes(buffer@))),
            status < 0 && self.op() is Write ==> res is Err && res->Err_0@ == write_error(exec_cmd(self.op()), reader_error@),
            status >= 0 && self.op() is Write ==> res is Ok && res->Ok_0@ == OutputView::Written,
    {
        proof { use_type_invariant(&self); }
        match self.op {
            CardOp::Read(cmd) => {
                match self.client.get_data(cmd, status, buffer, reader_error) {
                    Ok(s) => Ok(CardOutput::Data(s)),
                    Err(e) => Err(e),
                }
            },
            CardOp::Write(cmd, _) => {
                match self.client.set_data(cmd, status, reader_error) {
                    Ok(()) => Ok(CardOutput::Written),
                    Err(e) => Err(e),
                }
            },
            CardOp::Uuid => Ok(CardOutput::Written),
        }
    }
}


/// What the reader library answered about the monitoring thread.
#[derive(Debug, Copy, Clone, PartialEq, Eq, Structural)]
pub enum MonitorReply {
    /// The id of the thread that started, zero where none did.
    Started { tid: u64 },
    /// The status of the wait for a thread.
    Waited { rc: i32 },
}

/// What a monitor action asks of the reader library: starting a thread, or
/// waiting for thread zero.
pub open spec fn monitor_request_of(action: MonitorAction) -> MonitorRequest {
    match action {
        MonitorAction::START => MonitorRequest::StartThread,
        MonitorAction::STOP => MonitorRequest::WaitThread { mode: PcscsMonitor::WAIT, tid: 0 },
    }
}

/// A start asks for a monitoring thread; a stop waits, in the plain waiting
/// mode, for thread zero.
pub proof fn lemma_monitor_request_of(action: MonitorAction)
    ensures
        action == MonitorAction::START ==> monitor_request_of(action) == MonitorRequest::StartThread,
        action == MonitorAction::STOP ==> monitor_request_of(action)
            == (MonitorRequest::WaitThread { mode: PcscsMonitor::WAIT, tid: 0 }),
{
}

/// A handle on an NFC card reader, built on a reader client.
pub struct ScardHandle {
    pcsc: PcscClient,
    ctrl: Option<Box<dyn ScardControl>>,
}

impl ScardHandle {
    /// The client under the handle.
    pub closed spec fn client(&self) -> ClientView {
        self.pcsc@
    }

    /// Whether a callback was registered on the handle.
    pub closed spec fn has_callback(&self) -> bool {
        self.ctrl is Some
    }

    /// A handle on the reader of a client, with no callback registered.
    pub fn new(pcsc: PcscClient) -> (res: ScardHandle)
        ensures
            res.client() == pcsc@,
            !res.has_callback(),
    {
        ScardHandle { pcsc, ctrl: None }
    }

    /// Registers the callback that hears about the card slot, in place of
    /// any registered before, and hands the handle back; the reader client is
    /// left as it was.
    pub fn set_callback(&mut self, ctrlbox: Box<dyn ScardControl>) -> (res: &mut Self)
        ensures
            res.has_callback(),
            res.client() == old(self).client(),
            *final(self) == *final(res),
    {
        self.ctrl = Some(ctrlbox);
        self
    }

    /// Background callbacks are not registered here: connecting succeeds
    /// and hands the handle back.
    pub fn connect(&self) -> (res: Result<&Self, ScardError>)
        ensures
            res is Ok && res->Ok_0 == self,
    {
        Ok(self)
    }

    /// The reader client.
    pub fn pcsc(&self) -> (res: &PcscClient)
        ensures
            res@ == self.client(),
    {
        &self.pcsc
    }

    /// The reader client, to be called back from the reader monitor; the
    /// handle's own callback stays as it was.
    pub fn pcsc_mut(&mut self) -> (res: &mut PcscClient)
        ensures
            res@ == old(self).client(),
            final(self).client() == final(res)@,
            final(self).has_callback() == old(self).has_callback(),
    {
        &mut self.pcsc
    }

    /// The name of the reader, as the reader library gives it for the
    /// handle's connection, or a fixed text where it is not UTF-8.
    pub fn reader_name(&self, raw: &[u8]) -> (res: String)
        ensures
            res@ == reader_name_text(raw@),
    {
        PcscClient::get_reader_name(raw)
    }

    /// Starts reading the card's UUID.
    pub fn get_uuid<'a>(&'a self) -> (res: ReaderCheck<'a>)
        ensures
            res.op() == OpView::Uuid,
            res.client() == self.client(),
    {
        ReaderCheck::new(&self.pcsc, CardOp::Uuid)
    }

    /// Takes what the reader library found for `cuid`; see `PcscClient::get_cmd_by_uid`.
    pub fn get_cmd_by_uid(&self, cuid: &str, found: Option<PcscCmd>) -> (res: Result<ScardCmd, ScardError>)
        ensures
            res is Ok ==> found is Some && res->Ok_0@ == found->0@,
            has_nul(cuid.spec_bytes())
                ==> res is Err && res->Err_0@ == cuid_invalid_error(cuid@),
            !has_nul(cuid.spec_bytes()) && found is None
                ==> res is Err && res->Err_0@ == cuid_missing_error(cuid@),
            !has_nul(cuid.spec_bytes()) && found is Some
                ==> res is Ok,
    {
        self.pcsc.get_cmd_by_uid(cuid, found)
    }

    /// Starts running a read command on the card, after the reader check and
    /// the UUID read.
    pub fn read_data<'a>(&'a self, cmd: &'a PcscCmd) -> (res: ReaderCheck<'a>)
        ensures
            res.op() == OpView::Read(cmd@),
            res.client() == self.client(),
    {
        ReaderCheck::new(&self.pcsc, CardOp::Read(cmd))
    }

    /// Starts running a write command with `data` on the card, after the
    /// reader check and the UUID read.
    pub fn write_data<'a>(&'a self, cmd: &'a PcscCmd, data: &'a [u8]) -> (res: ReaderCheck<'a>)
        ensures
            res.op() == OpView::Write(cmd@, data@),
            res.client() == self.client(),
    {
        ReaderCheck::new(&self.pcsc, CardOp::Write(cmd, data))
    }

    /// What a monitor action asks of the reader library.
    pub fn monitor_request(action: MonitorAction) -> (res: MonitorRequest)
        ensures
            res == monitor_request_of(action),
            action == MonitorAction::START ==> res == MonitorRequest::StartThread,
            action == MonitorAction::STOP ==> res == (MonitorRequest::WaitThread { mode: PcscsMonitor::WAIT, tid: 0 }),
    {
        match action {
            MonitorAction::START => MonitorRequest::StartThread,
            MonitorAction::STOP => PcscClient::monitor_stop_request(0),
        }
    }

    /// Takes the reader library's answer about the monitoring thread, with
    /// the reader's name at that time: a started thread gives its id, a
    /// successful wait gives zero.
    pub fn monitor(&self, reply: MonitorReply, reader_name: &[u8]) -> (res: Result<u64, ScardError>)
        ensures
            reply matches MonitorReply::Started { tid } ==> (
                (tid == 0 ==> res is Err && res->Err_0@ == monitor_start_error(reader_name@))
                && (tid != 0 ==> res == Ok::<u64, ScardError>(tid))),
            reply matches MonitorReply::Waited { rc } ==> (
                (rc <= 0 ==> res is Err && res->Err_0@ == monitor_stop_error(reader_name@))
                && (rc > 0 ==> res == Ok::<u64, ScardError>(0))),
    {
        match reply {
            MonitorReply::Started { tid } => self.pcsc.monitor_start(tid, reader_name),
            MonitorReply::Waited { rc } => {
                match self.pcsc.monitor_stop(rc, reader_name) {
                    Ok(()) => Ok(0),
                    Err(e) => Err(e),
                }
            },
        }
    }
}

} // verus!
