use std::cell::RefCell;
use std::rc::Rc;
use scard_nfc::card::PcscState;
use scard_nfc::client::{
    PcscControl,
    cmd_key, ActionCodes, MonitorRequest, OptionSetting, PcscAction, PcscClient, PcscCmd, PcscConfig, PcscOption,
    PcscsMonitor, READER_CHECK_TIMEOUT,
};

const NAME: &[u8] = b"ACS ACR122U\0";

fn connected_client() -> PcscClient {
    let (client, _) = PcscClient::new(Some(PcscConfig { verbose: 1, timeout: 5 }), "{}".to_string(), 0x1234, None).unwrap();
    client
}

fn read_cmd() -> PcscCmd {
    PcscCmd::new(7, PcscAction::READ, b"read-name\0".to_vec(), b"read the name\0".to_vec(), 4)
}

#[test]
fn new_client_is_connected_with_its_options() {
    let (client, settings) = PcscClient::new(Some(PcscConfig { verbose: 3, timeout: 9 }), "{}".to_string(), 42, None).unwrap();
    assert_eq!(client.config(), PcscConfig { verbose: 3, timeout: 9 });
    assert_eq!(client.handle(), 42);
    assert_eq!(
        settings,
        vec![
            OptionSetting { option: PcscOption::VERBOSE, value: 3 },
            OptionSetting { option: PcscOption::TIMEOUT, value: 9 },
        ]
    );
}

#[test]
fn refused_configuration_is_an_error_with_its_text() {
    let err = PcscClient::new(None, "{\"reader\":\"x\"}".to_string(), 42, None).err().unwrap();
    assert_eq!(err.get_uid(), "pcsc-config-fail");
    assert_eq!(err.get_info(), "{\"reader\":\"x\"}");
}

#[test]
fn failed_connection_is_an_error_of_new() {
    let err = PcscClient::new(Some(PcscConfig { verbose: 1, timeout: 5 }), "{}".to_string(), 0, None).err().unwrap();
    assert_eq!(err.get_uid(), "pcsc-connect-fail");
    assert_eq!(err.get_info(), "Fail to connect to reader check config");
}

#[test]
fn reconnect_sets_verbosity_then_timeout() {
    let mut client = connected_client();
    let settings = client.connect(43).unwrap();
    assert_eq!(
        settings,
        vec![
            OptionSetting { option: PcscOption::VERBOSE, value: 1 },
            OptionSetting { option: PcscOption::TIMEOUT, value: 5 },
        ]
    );
    assert_eq!(client.handle(), 43);
}

#[test]
fn reconnect_with_null_handle_fails_and_changes_nothing() {
    let mut client = connected_client();
    let err = client.connect(0).err().unwrap();
    assert_eq!(err.get_uid(), "pcsc-connect-fail");
    assert_eq!(err.get_info(), "Fail to connect to reader check config");
    assert_eq!(client.handle(), 0x1234);
    assert_eq!(client.config(), PcscConfig { verbose: 1, timeout: 5 });
}

#[test]
fn monitor_stop_waits_for_the_given_thread() {
    assert_eq!(
        PcscClient::monitor_stop_request(77),
        MonitorRequest::WaitThread { mode: PcscsMonitor::WAIT, tid: 77 }
    );
}

#[test]
fn action_codes() {
    let codes = ActionCodes { read: 1, write: 2 };
    assert_eq!(PcscAction::from_code(1, codes), PcscAction::READ);
    assert_eq!(PcscAction::from_code(2, codes), PcscAction::WRITE);
    assert_eq!(PcscAction::from_code(3, codes), PcscAction::UUID);
    assert_eq!(PcscAction::from_code(99, codes), PcscAction::UUID);
}

#[test]
fn reader_name_and_error_texts() {
    assert_eq!(PcscClient::get_reader_name(b"ACS ACR122U\0"), "ACS ACR122U");
    assert_eq!(PcscClient::get_reader_name(&[0xff, 0x00]), "Not-UTF8-reader-name");
    assert_eq!(PcscClient::get_reader_error(b"no card\0"), "no card");
    assert_eq!(PcscClient::get_reader_error(&[0xfe]), "invalid error");
}

#[test]
fn monitor_start_outcomes() {
    let client = connected_client();
    assert_eq!(client.monitor_start(99, NAME).unwrap(), 99);
    let err = client.monitor_start(0, NAME).err().unwrap();
    assert_eq!(err.get_uid(), "pcsc-monitoring-start");
    assert_eq!(err.get_info(), "Fail start reader monitoring thread reader=ACS ACR122U");
}

#[test]
fn monitor_stop_outcomes() {
    let client = connected_client();
    assert!(client.monitor_stop(1, NAME).is_ok());
    for rc in [0, -1] {
        let err = client.monitor_stop(rc, NAME).err().unwrap();
        assert_eq!(err.get_uid(), "pcsc-monitoring-stop");
        assert_eq!(err.get_info(), "Fail start reader monitoring thread reader=ACS ACR122U");
    }
}

#[test]
fn uuid_outcomes() {
    let client = connected_client();
    assert_eq!(client.get_uuid(0x0401020304, b"").unwrap(), 0x0401020304);
    let err = client.get_uuid(0, b"card removed\0").err().unwrap();
    assert_eq!(err.get_uid(), "pcsc-get-uuid");
    assert_eq!(err.get_info(), "Fail reading smart card UUID error=card removed");
}

#[test]
fn reader_check_outcomes() {
    let client = connected_client();
    assert!(client.reader_check(0, NAME, b"").is_ok());
    let err = client.reader_check(-3, NAME, b"timeout\0").err().unwrap();
    assert_eq!(err.get_uid(), "pcsc-sync-check");
    assert_eq!(err.get_info(), "Fail connecting to reader=ACS ACR122U error=timeout");
    assert!(client.reader_check(1, NAME, b"x").is_err());
}

#[test]
fn reader_check_timeout_is_ten_seconds() {
    assert_eq!(READER_CHECK_TIMEOUT, 10);
}

#[test]
fn cmd_key_is_the_identifier_and_a_nul() {
    assert_eq!(cmd_key("read-name"), Some(b"read-name\0".to_vec()));
    assert_eq!(cmd_key(""), Some(vec![0]));
    assert_eq!(cmd_key("bad\0uid"), None);
}

#[test]
fn cmd_lookup_outcomes() {
    let client = connected_client();
    let found = client.get_cmd_by_uid("read-name", Some(read_cmd())).unwrap();
    assert_eq!(found.handle(), 7);
    let err = client.get_cmd_by_uid("nothing", None).err().unwrap();
    assert_eq!(err.get_uid(), "scard-cuid-missing");
    assert_eq!(err.get_info(), "Command cuid=nothing not found");
    let err = client.get_cmd_by_uid("a\0b", Some(read_cmd())).err().unwrap();
    assert_eq!(err.get_uid(), "scard-cuid-invalid");
    assert_eq!(err.get_info(), "Command cuid=a\0b invalid");
}

#[test]
fn cmd_texts_and_fields() {
    let cmd = read_cmd();
    assert_eq!(cmd.get_uid(), "read-name");
    assert_eq!(cmd.get_info(), "read the name");
    assert_eq!(cmd.get_action(), PcscAction::READ);
    assert_eq!(cmd.data_len(), 4);
    let odd = PcscCmd::new(1, PcscAction::UUID, vec![0xff], vec![0xfe, 0x00], 0);
    assert_eq!(odd.get_uid(), "Not-UTF8-uid");
    assert_eq!(odd.get_info(), "Not-UTF8-uid");
}

#[test]
fn data_buffer_is_zeroed_to_the_data_length() {
    assert_eq!(PcscClient::data_buffer(&read_cmd()), vec![0, 0, 0, 0]);
}

#[test]
fn get_data_outcomes() {
    let client = connected_client();
    let cmd = read_cmd();
    assert_eq!(client.get_data(&cmd, 0, b"Mr Kermichue\0\0\0", b"").unwrap(), "Mr Kermichue");
    let err = client.get_data(&cmd, -1, b"whatever", b"auth failed\0").err().unwrap();
    assert_eq!(err.get_uid(), "scard-cuid-read");
    assert_eq!(err.get_info(), "cuid=read-name error=auth failed");
    let err = client.get_data(&cmd, 0, &[0x80, 0x00], b"").err().unwrap();
    assert_eq!(err.get_uid(), "scard-cuid-data");
    assert_eq!(err.get_info(), "cuid=read-name no utf8 data");
}

#[test]
fn set_data_outcomes() {
    let client = connected_client();
    let cmd = PcscCmd::new(8, PcscAction::WRITE, b"write-name\0".to_vec(), b"\0".to_vec(), 16);
    assert!(client.set_data(&cmd, 0, b"").is_ok());
    let err = client.set_data(&cmd, -2, b"key B refused\0").err().unwrap();
    assert_eq!(err.get_uid(), "scard-cuid-write");
    assert_eq!(err.get_info(), "cuid=write-name key B refused");
}

#[test]
fn cmd_key_reads_back_as_the_identifier() {
    for cuid in ["read-name", "", "Kermichué-3"] {
        let key = cmd_key(cuid).unwrap();
        assert_eq!(scard_nfc::text::c_text(&key), Some(cuid.to_string()));
    }
}

struct Recorder(Rc<RefCell<Vec<(u64, PcscState)>>>);

impl PcscControl for Recorder {
    fn scard_monitor(&mut self, handle: u64, status: PcscState) {
        self.0.borrow_mut().push((handle, status));
    }
}

#[test]
fn reader_monitor_cb_hands_the_state_to_the_controller() {
    let seen = Rc::new(RefCell::new(Vec::new()));
    let ctrl: Box<dyn PcscControl> = Box::new(Recorder(seen.clone()));
    let (mut client, _) = PcscClient::new(Some(PcscConfig { verbose: 0, timeout: 1 }), "{}".to_string(), 9, Some(ctrl)).unwrap();
    assert_eq!(client.reader_monitor_cb(0x20), 0);
    assert_eq!(client.reader_monitor_cb(0x10), 0);
    assert_eq!(client.reader_monitor_cb(0x30), 0);
    assert_eq!(client.reader_monitor_cb(0), 0);
    assert_eq!(
        *seen.borrow(),
        vec![(9, PcscState::PRESENT), (9, PcscState::EMPTY), (9, PcscState::PRESENT), (9, PcscState::UNKNOWN)]
    );
}

#[test]
fn reader_monitor_cb_without_controller_does_nothing() {
    let mut client = connected_client();
    assert_eq!(client.reader_monitor_cb(0x20), 0);
    assert_eq!(client.handle(), 0x1234);
}
