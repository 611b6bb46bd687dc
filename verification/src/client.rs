use vstd::prelude::*;
use crate::card::PcscState;
use vstd::string::StringSliceAdditionalSpecFns;
use crate::error::{ScardError, ErrorView, error_view, join2, join3, join4};
use crate::text::{c_text, c_text_or, c_text_with_fallback, c_text_bytes, is_c_text_end, lemma_c_text_len};
use vstd::utf8::{valid_utf8, decode_utf8, encode_utf8_valid_utf8, encode_utf8_decode_utf8};

verus! {

/// What a reader command does to the card.
#[derive(Debug, Copy, Clone, PartialEq, Eq, Structural)]
pub enum PcscAction {
    READ,
    WRITE,
    UUID,
}

/// The codes under which the reader library's header names the read and
/// write command actions.
#[derive(Debug, Copy, Clone, PartialEq, Eq, Structural)]
pub struct ActionCodes {
    pub read: u32,
    pub write: u32,
}

/// The action that a code of the reader library stands for: the read code
/// is a read, the write code a write, and any other code (the UUID code
/// among them) only reads the card's UUID.
pub open spec fn action_of_code(code: u32, codes: ActionCodes) -> PcscAction {
    if code == codes.read {
        PcscAction::READ
    } else if code == codes.write {
        PcscAction::WRITE
    } else {
        PcscAction::UUID
    }
}

/// The read code gives a read, the write code (where it is not also the read
/// code) a write, and every other code a UUID read.
pub proof fn lemma_action_of_code(code: u32, codes: ActionCodes)
    ensures
        code == codes.read ==> action_of_code(code, codes) == PcscAction::READ,
        code != codes.read && code == codes.write ==> action_of_code(code, codes) == PcscAction::WRITE,
        code != codes.read && code != codes.write ==> action_of_code(code, codes) == PcscAction::UUID,
{
}

impl PcscAction {
    /// The action that a code of the reader library stands for.
    pub fn from_code(code: u32, codes: ActionCodes) -> (res: PcscAction)
        ensures
            res == action_of_code(code, codes),
            code == codes.read ==> res == PcscAction::READ,
            code != codes.read && code == codes.write ==> res == PcscAction::WRITE,
            code != codes.read && code != codes.write ==> res == PcscAction::UUID,
    {
        if code == codes.read {
            PcscAction::READ
        } else if code == codes.write {
            PcscAction::WRITE
        } else {
            PcscAction::UUID
        }
    }
}

/// The options that can be set on a reader connection.
#[derive(Debug, Copy, Clone, PartialEq, Eq, Structural)]
pub enum PcscOption {
    UNKNOWN,
    TIMEOUT,
    VERBOSE,
}

/// How a reader monitoring thread is waited for.
#[derive(Debug, Copy, Clone, PartialEq, Eq, Structural)]
pub enum PcscsMonitor {
    UNKNOWN,
    WAIT,
    CANCEL,
    KILL,
}

/// A command of the reader configuration, as the reader library describes
/// it: an opaque handle, what it does, the raw bytes of its identifier and of
/// its description, and how many bytes a read through it returns.
pub struct PcscCmd {
    handle: u64,
    action: PcscAction,
    uid: Vec<u8>,
    info: Vec<u8>,
    data_len: usize,
}

/// The mathematical value of a command.
pub struct CmdView {
    pub handle: u64,
    pub action: PcscAction,
    pub uid: Seq<u8>,
    pub info: Seq<u8>,
    pub data_len: nat,
}

impl View for PcscCmd {
    type V = CmdView;

    closed spec fn view(&self) -> CmdView {
        CmdView {
            handle: self.handle,
            action: self.action,
            uid: self.uid@,
            info: self.info@,
            data_len: self.data_len as nat,
        }
    }
}

/// The text shown for a command identifier whose bytes are not UTF-8.
pub const NOT_UTF8_UID: &'static str = "Not-UTF8-uid";

/// The identifier of a command, as text.
pub open spec fn cmd_uid_text(cmd: CmdView) -> Seq<char> {
    c_text_or(cmd.uid, NOT_UTF8_UID@)
}

/// The description of a command, as text.
pub open spec fn cmd_info_text(cmd: CmdView) -> Seq<char> {
    c_text_or(cmd.info, NOT_UTF8_UID@)
}

impl PcscCmd {
    /// A command described by the reader library.
    pub fn new(handle: u64, action: PcscAction, uid: Vec<u8>, info: Vec<u8>, data_len: usize) -> (res: PcscCmd)
        ensures
            res@ == (CmdView { handle, action, uid: uid@, info: info@, data_len: data_len as nat }),
    {
        PcscCmd { handle, action, uid, info, data_len }
    }

    /// The handle through which the reader library knows the command.
    pub fn handle(&self) -> (res: u64)
        ensures
            res == self@.handle,
    {
        self.handle
    }

    /// How many bytes a read through this command returns.
    pub fn data_len(&self) -> (res: usize)
        ensures
            res == self@.data_len,
    {
        self.data_len
    }

    /// What the command does.
    pub fn get_action(&self) -> (res: PcscAction)
        ensures
            res == self@.action,
    {
        self.action
    }

    /// The identifier of the command, or a fixed text where it is not UTF-8.
    pub fn get_uid(&self) -> (res: String)
        ensures
            res@ == cmd_uid_text(self@),
    {
        c_text_with_fallback(self.uid.as_slice(), NOT_UTF8_UID)
    }

    /// The description of the command, or a fixed text where it is not UTF-8.
    pub fn get_info(&self) -> (res: String)
        ensures
            res@ == cmd_info_text(self@),
    {
        c_text_with_fallback(self.info.as_slice(), NOT_UTF8_UID)
    }
}


/// Implemented by those who want to hear what a client's reader monitor saw:
/// the connection handle of the client, and the state of its card slot.
pub trait PcscControl {
    fn scard_monitor(&mut self, handle: u64, status: PcscState);
}

/// What the reader library is asked to do with a monitoring thread.
#[derive(Debug, Copy, Clone, PartialEq, Eq, Structural)]
pub enum MonitorRequest {
    /// Start a thread that monitors the reader until the card is removed.
    StartThread,
    /// Wait, in the given way, for the given thread.
    WaitThread { mode: PcscsMonitor, tid: u64 },
}

/// The settings that the reader library read from the binding's
/// configuration and that the client itself applies.
#[derive(Debug, Copy, Clone, PartialEq, Eq, Structural)]
pub struct PcscConfig {
    pub verbose: u64,
    pub timeout: u64,
}

/// An option to set on a fresh reader connection, and its value.
#[derive(Debug, Copy, Clone, PartialEq, Eq, Structural)]
pub struct OptionSetting {
    pub option: PcscOption,
    pub value: u64,
}

/// A client of one smart-card reader: the configuration it was made with,
/// the handle of its reader connection (never null: every client is
/// connected), and the controller, if any, that hears what the reader
/// monitor saw.
pub struct PcscClient {
    config: PcscConfig,
    handle: ConnHandle,
    ctrl: Option<Box<dyn PcscControl>>,
}

/// The handle of an open reader connection: never null.
struct ConnHandle {
    raw: u64,
}

impl ConnHandle {
    #[verifier::type_invariant]
    closed spec fn non_null(self) -> bool {
        self.raw != 0
    }

    /// The handle as the reader library knows it.
    closed spec fn value(self) -> u64 {
        self.raw
    }

    /// The handle of a connection that the reader library opened.
    fn new(raw: u64) -> (res: ConnHandle)
        requires
            raw != 0,
        ensures
            res.value() == raw,
    {
        ConnHandle { raw }
    }

    /// The handle as the reader library knows it, never null.
    fn get(&self) -> (res: u64)
        ensures
            res == self.value(),
            res != 0,
    {
        proof { use_type_invariant(self); }
        self.raw
    }
}

/// The mathematical value of a client: its configuration, its connection
/// handle, and whether it has a monitoring controller.
pub struct ClientView {
    pub config: PcscConfig,
    pub handle: u64,
    pub has_ctrl: bool,
}

impl View for PcscClient {
    type V = ClientView;

    closed spec fn view(&self) -> ClientView {
        ClientView { config: self.config, handle: self.handle.value(), has_ctrl: self.ctrl is Some }
    }
}

/// How long, in seconds, a reader check waits for a card.
pub const READER_CHECK_TIMEOUT: u32 = 10;

/// The text shown for a reader name that is not UTF-8.
pub const NOT_UTF8_READER_NAME: &'static str = "Not-UTF8-reader-name";

/// The text shown for a reader error message that is not UTF-8.
pub const INVALID_ERROR: &'static str = "invalid error";

/// A raw reader name, as text.
pub open spec fn reader_name_text(raw: Seq<u8>) -> Seq<char> {
    c_text_or(raw, NOT_UTF8_READER_NAME@)
}

/// A reader error message, as text.
pub open spec fn reader_error_text(raw: Seq<u8>) -> Seq<char> {
    c_text_or(raw, INVALID_ERROR@)
}

/// The error of a configuration that the reader library refused.
pub open spec fn config_error(config_text: Seq<char>) -> ErrorView {
    error_view("pcsc-config-fail"@, config_text)
}

/// The error of a connection that the reader refused.
pub open spec fn connect_error() -> ErrorView {
    error_view("pcsc-connect-fail"@, "Fail to connect to reader check config"@)
}

/// The error of a monitoring thread that did not start.
pub open spec fn monitor_start_error(reader_name: Seq<u8>) -> ErrorView {
    error_view("pcsc-monitoring-start"@, "Fail start reader monitoring thread reader="@ + reader_name_text(reader_name))
}

/// The error of a monitoring thread that could not be waited for.
pub open spec fn monitor_stop_error(reader_name: Seq<u8>) -> ErrorView {
    error_view("pcsc-monitoring-stop"@, "Fail start reader monitoring thread reader="@ + reader_name_text(reader_name))
}

/// The error of a card whose UUID could not be read.
pub open spec fn uuid_error(reader_error: Seq<u8>) -> ErrorView {
    error_view("pcsc-get-uuid"@, "Fail reading smart card UUID error="@ + reader_error_text(reader_error))
}

/// The error of a reader check that failed.
pub open spec fn check_error(reader_name: Seq<u8>, reader_error: Seq<u8>) -> ErrorView {
    error_view(
        "pcsc-sync-check"@,
        "Fail connecting to reader="@ + reader_name_text(reader_name) + " error="@ + reader_error_text(reader_error),
    )
}

/// The error of a command identifier that holds a NUL character.
pub open spec fn cuid_invalid_error(cuid: Seq<char>) -> ErrorView {
    error_view("scard-cuid-invalid"@, "Command cuid="@ + cuid + " invalid"@)
}

/// The error of a command identifier that the configuration does not hold.
pub open spec fn cuid_missing_error(cuid: Seq<char>) -> ErrorView {
    error_view("scard-cuid-missing"@, "Command cuid="@ + cuid + " not found"@)
}

/// The error of a read command that the card refused.
pub open spec fn read_error(cmd: CmdView, reader_error: Seq<u8>) -> ErrorView {
    error_view("scard-cuid-read"@, "cuid="@ + cmd_uid_text(cmd) + " error="@ + reader_error_text(reader_error))
}

/// The error of read data that is not UTF-8.
pub open spec fn data_error(cmd: CmdView) -> ErrorView {
    error_view("scard-cuid-data"@, "cuid="@ + cmd_uid_text(cmd) + " no utf8 data"@)
}

/// The error of a write command that the card refused.
pub open spec fn write_error(cmd: CmdView, reader_error: Seq<u8>) -> ErrorView {
    error_view("scard-cuid-write"@, "cuid="@ + cmd_uid_text(cmd) + " "@ + reader_error_text(reader_error))
}

/// Whether some byte is NUL.
pub open spec fn has_nul(bytes: Seq<u8>) -> bool {
    exists|i: int| 0 <= i < bytes.len() && bytes[i] == 0
}

/// The NUL-terminated key under which the reader library looks a command
/// up, or `None` where the identifier itself holds a NUL byte.
pub fn cmd_key(cuid: &str) -> (res: Option<Vec<u8>>)
    ensures
        res is Some <==> !has_nul(cuid.spec_bytes()),
        res is Some ==> res->0@ == cuid.spec_bytes().push(0),
{
    let bytes = cuid.as_bytes();
    let mut key: Vec<u8> = Vec::new();
    let mut i: usize = 0;
    while i < bytes.len()
        invariant
            i <= bytes@.len(),
            bytes@ == cuid.spec_bytes(),
            key@ == bytes@.subrange(0, i as int),
            forall|j: int| 0 <= j < i ==> bytes@[j] != 0,
        decreases bytes@.len() - i,
    {
        if bytes[i] == 0 {
            return None;
        }
        key.push(bytes[i]);
        i = i + 1;
        assert(key@ == bytes@.subrange(0, i as int));
    }
    assert(bytes@.subrange(0, i as int) == bytes@);
    key.push(0);
    Some(key)
}

/// The key of a command identifier reads back, as a C string, as that very
/// identifier: the reader library is asked for exactly the command named.
pub proof fn lemma_cmd_key_reads_back(cuid: &str)
    requires
        !has_nul(cuid.spec_bytes()),
    ensures
        c_text_bytes(cuid.spec_bytes().push(0)) == cuid.spec_bytes(),
        valid_utf8(c_text_bytes(cuid.spec_bytes().push(0))),
        decode_utf8(c_text_bytes(cuid.spec_bytes().push(0))) == cuid@,
{
    let b = cuid.spec_bytes();
    let k = b.push(0);
    assert forall|j: int| 0 <= j < b.len() implies k[j] != 0 by {
        if k[j] == 0 {
            assert(b[j] == 0);
        }
    }
    assert(is_c_text_end(k, b.len() as int));
    lemma_c_text_len(k, b.len() as int);
    assert(k.subrange(0, b.len() as int) =~= b);
    encode_utf8_valid_utf8(cuid@);
    encode_utf8_decode_utf8(cuid@);
}

/// The options to set on a fresh connection of a configuration: its
/// verbosity first, then its timeout.
pub open spec fn option_settings(config: PcscConfig) -> Seq<OptionSetting> {
    seq![
        OptionSetting { option: PcscOption::VERBOSE, value: config.verbose },
        OptionSetting { option: PcscOption::TIMEOUT, value: config.timeout },
    ]
}

/// The options of a fresh connection are exactly two: the verbosity, then
/// the timeout, each with the configured value.
pub proof fn lemma_option_settings_are_verbose_then_timeout(config: PcscConfig)
    ensures
        option_settings(config).len() == 2,
        option_settings(config)[0] == (OptionSetting { option: PcscOption::VERBOSE, value: config.verbose }),
        option_settings(config)[1] == (OptionSetting { option: PcscOption::TIMEOUT, value: config.timeout }),
{
}

/// The options to set on a fresh connection of `config`.
fn connection_options(config: PcscConfig) -> (res: Vec<OptionSetting>)
    ensures
        res@ == option_settings(config),
        res@.len() == 2,
        res@[0] == (OptionSetting { option: PcscOption::VERBOSE, value: config.verbose }),
        res@[1] == (OptionSetting { option: PcscOption::TIMEOUT, value: config.timeout }),
{
    let mut settings: Vec<OptionSetting> = Vec::new();
    settings.push(OptionSetting { option: PcscOption::VERBOSE, value: config.verbose });
    settings.push(OptionSetting { option: PcscOption::TIMEOUT, value: config.timeout });
    settings
}

impl PcscClient {
    /// A client of the configuration that the reader library parsed, on the
    /// connection that the reader library then opened: a refused
    /// configuration is the configuration error, with the configuration's
    /// text; a null connection handle is the connection error; otherwise the
    /// client is connected on that handle, and the options to set on it are
    /// returned, verbosity first, then the timeout. The client keeps the
    /// given monitoring controller.
    pub fn new(
        config: Option<PcscConfig>,
        config_text: String,
        handle: u64,
        callback: Option<Box<dyn PcscControl>>,
    ) -> (res: Result<(PcscClient, Vec<OptionSetting>), ScardError>)
        ensures
            config is None ==> res is Err && res->Err_0@ == config_error(config_text@),
            config is Some && handle == 0 ==> res is Err && res->Err_0@ == connect_error(),
            config is Some && handle != 0 ==> res is Ok
                && res->Ok_0.0@ == (ClientView { config: config->0, handle, has_ctrl: callback is Some })
                && res->Ok_0.1@ == option_settings(config->0)
                && res->Ok_0.1@.len() == 2
                && res->Ok_0.1@[0] == (OptionSetting { option: PcscOption::VERBOSE, value: config->0.verbose })
                && res->Ok_0.1@[1] == (OptionSetting { option: PcscOption::TIMEOUT, value: config->0.timeout }),
    {
        let c = match config {
            Some(c) => c,
            None => {
                return Err(ScardError::new("pcsc-config-fail", config_text));
            },
        };
        if handle == 0 {
            return Err(ScardError::new("pcsc-connect-fail", String::from_str("Fail to connect to reader check config")));
        }
        Ok((PcscClient { config: c, handle: ConnHandle::new(handle), ctrl: callback }, connection_options(c)))
    }

    /// The configuration the client was made with.
    pub fn config(&self) -> (res: PcscConfig)
        ensures
            res == self@.config,
    {
        self.config
    }

    /// The handle of the reader connection, never null.
    pub fn handle(&self) -> (res: u64)
        ensures
            res == self@.handle,
            res != 0,
    {
        self.handle.get()
    }

    /// Takes the handle that the reader library returned for a new
    /// connection: a null handle is the connection error and leaves the
    /// client on its former connection; any other becomes the client's
    /// handle, and the options to set on it are returned, verbosity first,
    /// then the timeout.
    pub fn connect(&mut self, handle: u64) -> (res: Result<Vec<OptionSetting>, ScardError>)
        ensures
            handle == 0 ==> res is Err && res->Err_0@ == connect_error() && final(self)@ == old(self)@,
            handle != 0 ==> res is Ok && final(self)@ == (ClientView { handle, ..old(self)@ })
                && res->Ok_0@ == option_settings(old(self)@.config)
                && res->Ok_0@.len() == 2
                && res->Ok_0@[0] == (OptionSetting { option: PcscOption::VERBOSE, value: old(self)@.config.verbose })
                && res->Ok_0@[1] == (OptionSetting { option: PcscOption::TIMEOUT, value: old(self)@.config.timeout }),
    {
        if handle == 0 {
            return Err(ScardError::new("pcsc-connect-fail", String::from_str("Fail to connect to reader check config")));
        }
        self.handle = ConnHandle::new(handle);
        Ok(connection_options(self.config))
    }

    /// A raw reader name, as the reader library gives it for the client's
    /// connection, as text, or a fixed text where it is not UTF-8.
    pub fn get_reader_name(raw: &[u8]) -> (res: String)
        ensures
            res@ == reader_name_text(raw@),
    {
        c_text_with_fallback(raw, NOT_UTF8_READER_NAME)
    }

    /// What the reader monitor's callback does with the reader's state bits:
    /// the state they stand for goes to the client's controller, if it has
    /// one; the callback answers zero.
    pub fn reader_monitor_cb(&mut self, state: u64) -> (res: i32)
        ensures
            res == 0,
            final(self)@ == old(self)@,
    {
        let scard_state = PcscState::from_mask(state);
        let handle = self.handle.get();
        match &mut self.ctrl {
            Some(c) => {
                c.scard_monitor(handle, scard_state);
            },
            None => {},
        }
        0
    }

    /// A raw reader error message as text, or a fixed text where it is not UTF-8.
    pub fn get_reader_error(raw: &[u8]) -> (res: String)
        ensures
            res@ == reader_error_text(raw@),
    {
        c_text_with_fallback(raw, INVALID_ERROR)
    }

    /// Takes the thread id that starting a monitoring thread returned: zero
    /// means that no thread started.
    pub fn monitor_start(&self, tid: u64, reader_name: &[u8]) -> (res: Result<u64, ScardError>)
        ensures
            tid == 0 ==> res is Err && res->Err_0@ == monitor_start_error(reader_name@),
            tid != 0 ==> res == Ok::<u64, ScardError>(tid),
    {
        if tid == 0 {
            let name = PcscClient::get_reader_name(reader_name);
            return Err(ScardError::new(
                "pcsc-monitoring-start",
                join2("Fail start reader monitoring thread reader=", name.as_str()),
            ));
        }
        Ok(tid)
    }

    /// What stopping the monitoring thread `tid` asks of the reader library:
    /// waiting, in the plain waiting mode, for that very thread.
    pub fn monitor_stop_request(tid: u64) -> (res: MonitorRequest)
        ensures
            res == (MonitorRequest::WaitThread { mode: PcscsMonitor::WAIT, tid }),
    {
        MonitorRequest::WaitThread { mode: PcscsMonitor::WAIT, tid }
    }

    /// Takes the status that waiting for a monitoring thread returned: it
    /// succeeded where the status is positive.
    pub fn monitor_stop(&self, rc: i32, reader_name: &[u8]) -> (res: Result<(), ScardError>)
        ensures
            rc <= 0 ==> res is Err && res->Err_0@ == monitor_stop_error(reader_name@),
            rc > 0 ==> res is Ok,
    {
        if rc <= 0 {
            let name = PcscClient::get_reader_name(reader_name);
            return Err(ScardError::new(
                "pcsc-monitoring-stop",
                join2("Fail start reader monitoring thread reader=", name.as_str()),
            ));
        }
        Ok(())
    }

    /// Takes the UUID that the reader read from the card, with the reader's
    /// error message at that time: zero means that no UUID could be read.
    pub fn get_uuid(&self, uuid: u64, reader_error: &[u8]) -> (res: Result<u64, ScardError>)
        ensures
            uuid == 0 ==> res is Err && res->Err_0@ == uuid_error(reader_error@),
            uuid != 0 ==> res == Ok::<u64, ScardError>(uuid),
    {
        if uuid == 0 {
            let err = PcscClient::get_reader_error(reader_error);
            return Err(ScardError::new("pcsc-get-uuid", join2("Fail reading smart card UUID error=", err.as_str())));
        }
        Ok(uuid)
    }

    /// Takes the status of a reader check, with the reader's error message at
    /// that time: any status but zero is a failure.
    pub fn reader_check(&self, status: i32, reader_name: &[u8], reader_error: &[u8]) -> (res: Result<(), ScardError>)
        ensures
            status != 0 ==> res is Err && res->Err_0@ == check_error(reader_name@, reader_error@),
            status == 0 ==> res is Ok,
    {
        if status != 0 {
            let name = PcscClient::get_reader_name(reader_name);
            let err = PcscClient::get_reader_error(reader_error);
            return Err(ScardError::new(
                "pcsc-sync-check",
                join4("Fail connecting to reader=", name.as_str(), " error=", err.as_str()),
            ));
        }
        Ok(())
    }

    /// Takes what the reader library found under the key of `cuid` (see
    /// `cmd_key`): an identifier with a NUL byte is invalid, whatever was
    /// found; otherwise nothing found is a missing command.
    pub fn get_cmd_by_uid(&self, cuid: &str, found: Option<PcscCmd>) -> (res: Result<PcscCmd, ScardError>)
        ensures
            has_nul(cuid.spec_bytes()) ==> res is Err && res->Err_0@ == cuid_invalid_error(cuid@),
            !has_nul(cuid.spec_bytes()) && found is None ==> res is Err && res->Err_0@ == cuid_missing_error(cuid@),
            !has_nul(cuid.spec_bytes()) && found is Some ==> res is Ok && res->Ok_0@ == found->0@,
    {
        if cmd_key(cuid).is_none() {
            return Err(ScardError::new("scard-cuid-invalid", join3("Command cuid=", cuid, " invalid")));
        }
        match found {
            Some(cmd) => Ok(cmd),
            None => Err(ScardError::new("scard-cuid-missing", join3("Command cuid=", cuid, " not found"))),
        }
    }

    /// The zeroed buffer into which the card's reply to a read command goes.
    pub fn data_buffer(cmd: &PcscCmd) -> (res: Vec<u8>)
        ensures
            res@ == Seq::new(cmd@.data_len, |i: int| 0u8),
    {
        let n = cmd.data_len();
        let mut buf: Vec<u8> = Vec::new();
        let mut i: usize = 0;
        while i < n
            invariant
                i <= n,
                n == cmd@.data_len,
                buf@ == Seq::new(i as nat, |j: int| 0u8),
            decreases n - i,
        {
            buf.push(0);
            i = i + 1;
            assert(buf@ =~= Seq::new(i as nat, |j: int| 0u8));
        }
        buf
    }

    /// Takes the status of a read command and the buffer it filled, with the
    /// reader's error message at that time: a negative status is a refused
    /// read; otherwise the data is the C string in the buffer, which must be
    /// UTF-8.
    pub fn get_data(&self, cmd: &PcscCmd, status: i32, buffer: &[u8], reader_error: &[u8]) -> (res: Result<String, ScardError>)
        ensures
            status < 0 ==> res is Err && res->Err_0@ == read_error(cmd@, reader_error@),
            status >= 0 && !valid_utf8(crate::text::c_text_bytes(buffer@))
                ==> res is Err && res->Err_0@ == data_error(cmd@),
            status >= 0 && valid_utf8(crate::text::c_text_bytes(buffer@))
                ==> res is Ok && res->Ok_0@ == decode_utf8(crate::text::c_text_bytes(buffer@)),
    {
        if status < 0 {
            let uid = cmd.get_uid();
            let err = PcscClient::get_reader_error(reader_error);
            return Err(ScardError::new("scard-cuid-read", join4("cuid=", uid.as_str(), " error=", err.as_str())));
        }
        match c_text(buffer) {
            Some(s) => Ok(s),
            None => {
                let uid = cmd.get_uid();
                Err(ScardError::new("scard-cuid-data", join3("cuid=", uid.as_str(), " no utf8 data")))
            },
        }
    }

    /// Takes the status of a write command, with the reader's error message
    /// at that time: a negative status is a refused write.
    pub fn set_data(&self, cmd: &PcscCmd, status: i32, reader_error: &[u8]) -> (res: Result<(), ScardError>)
        ensures
            status < 0 ==> res is Err && res->Err_0@ == write_error(cmd@, reader_error@),
            status >= 0 ==> res is Ok,
    {
        if status < 0 {
            let uid = cmd.get_uid();
            let err = PcscClient::get_reader_error(reader_error);
            return Err(ScardError::new("scard-cuid-write", join4("cuid=", uid.as_str(), " ", err.as_str())));
        }
        Ok(())
    }
}

} // verus!
