use scard_nfc::client::{MonitorRequest, PcscAction, PcscClient, PcscCmd, PcscConfig, PcscsMonitor};
use scard_nfc::handle::{AfterUuid, CardOutput, MonitorAction, MonitorReply, ScardHandle};

const NAME: &[u8] = b"reader-0\0";

fn handle() -> ScardHandle {
    let (client, _) = PcscClient::new(Some(PcscConfig { verbose: 0, timeout: 3 }), "{}".to_string(), 77, None).unwrap();
    ScardHandle::new(client)
}

fn read_cmd() -> PcscCmd {
    PcscCmd::new(11, PcscAction::READ, b"name\0".to_vec(), b"card holder\0".to_vec(), 6)
}

fn write_cmd() -> PcscCmd {
    PcscCmd::new(12, PcscAction::WRITE, b"set-name\0".to_vec(), b"write holder\0".to_vec(), 6)
}

#[test]
fn uuid_operation_reads_the_uuid_after_the_check() {
    let h = handle();
    let step = h.get_uuid();
    assert_eq!(step.timeout(), 10);
    let step = step.checked(0, NAME, b"").unwrap();
    match step.uuid_read(0xabcd, b"").unwrap() {
        AfterUuid::Done(CardOutput::Uuid(u)) => assert_eq!(u, 0xabcd),
        _ => panic!("a UUID operation ends with the UUID"),
    }
}

#[test]
fn failed_check_ends_the_operation() {
    let h = handle();
    let cmd = read_cmd();
    let err = h.read_data(&cmd).checked(5, NAME, b"no card\0").err().unwrap();
    assert_eq!(err.get_uid(), "pcsc-sync-check");
    assert_eq!(err.get_info(), "Fail connecting to reader=reader-0 error=no card");
}

#[test]
fn zero_uuid_ends_the_operation() {
    let h = handle();
    let cmd = write_cmd();
    let step = h.write_data(&cmd, b"Mme").checked(0, NAME, b"").unwrap();
    let err = step.uuid_read(0, b"mute card\0").err().unwrap();
    assert_eq!(err.get_uid(), "pcsc-get-uuid");
    assert_eq!(err.get_info(), "Fail reading smart card UUID error=mute card");
}

#[test]
fn read_operation_runs_the_command_last() {
    let h = handle();
    let cmd = read_cmd();
    let step = h.read_data(&cmd).checked(0, NAME, b"").unwrap();
    let exec = match step.uuid_read(9, b"").unwrap() {
        AfterUuid::Exec(e) => e,
        _ => panic!("a read goes on to its command"),
    };
    assert_eq!(exec.card_uuid(), 9);
    assert_eq!(exec.cmd_handle(), 11);
    assert_eq!(exec.payload(), vec![0u8; 6]);
    match exec.executed(0, b"Mr K\0\0", b"").unwrap() {
        CardOutput::Data(s) => assert_eq!(s, "Mr K"),
        _ => panic!("a read gives data"),
    }
}

#[test]
fn read_operation_errors() {
    let h = handle();
    let cmd = read_cmd();
    for (status, buffer, uid, info) in [
        (-1, &b"xx"[..], "scard-cuid-read", "cuid=name error=denied"),
        (0, &[0xff, 0x00][..], "scard-cuid-data", "cuid=name no utf8 data"),
    ] {
        let step = h.read_data(&cmd).checked(0, NAME, b"").unwrap();
        let exec = match step.uuid_read(1, b"").unwrap() {
            AfterUuid::Exec(e) => e,
            _ => panic!("a read goes on to its command"),
        };
        let err = exec.executed(status, buffer, b"denied\0").err().unwrap();
        assert_eq!(err.get_uid(), uid);
        assert_eq!(err.get_info(), info);
    }
}

#[test]
fn write_operation_hands_over_its_data() {
    let h = handle();
    let cmd = write_cmd();
    let step = h.write_data(&cmd, b"Mme Kermichue").checked(0, NAME, b"").unwrap();
    let exec = match step.uuid_read(3, b"").unwrap() {
        AfterUuid::Exec(e) => e,
        _ => panic!("a write goes on to its command"),
    };
    assert_eq!(exec.cmd_handle(), 12);
    assert_eq!(exec.payload(), b"Mme Kermichue".to_vec());
    assert!(matches!(exec.executed(0, b"", b"").unwrap(), CardOutput::Written));
}

#[test]
fn refused_write_is_an_error() {
    let h = handle();
    let cmd = write_cmd();
    let step = h.write_data(&cmd, b"x").checked(0, NAME, b"").unwrap();
    let exec = match step.uuid_read(3, b"").unwrap() {
        AfterUuid::Exec(e) => e,
        _ => panic!("a write goes on to its command"),
    };
    let err = exec.executed(-5, b"", b"locked\0").err().unwrap();
    assert_eq!(err.get_uid(), "scard-cuid-write");
    assert_eq!(err.get_info(), "cuid=set-name locked");
}

#[test]
fn handle_passes_on_reader_name_and_lookups() {
    let h = handle();
    assert!(h.connect().is_ok());
    assert_eq!(h.reader_name(NAME), "reader-0");
    assert_eq!(h.get_cmd_by_uid("name", Some(read_cmd())).unwrap().handle(), 11);
    assert_eq!(h.get_cmd_by_uid("name", None).err().unwrap().get_uid(), "scard-cuid-missing");
}

#[test]
fn monitor_requests() {
    assert_eq!(ScardHandle::monitor_request(MonitorAction::START), MonitorRequest::StartThread);
    assert_eq!(
        ScardHandle::monitor_request(MonitorAction::STOP),
        MonitorRequest::WaitThread { mode: PcscsMonitor::WAIT, tid: 0 }
    );
}

#[test]
fn monitor_replies() {
    let h = handle();
    assert_eq!(h.monitor(MonitorReply::Started { tid: 5 }, NAME).unwrap(), 5);
    assert_eq!(h.monitor(MonitorReply::Waited { rc: 1 }, NAME).unwrap(), 0);
    let err = h.monitor(MonitorReply::Started { tid: 0 }, NAME).err().unwrap();
    assert_eq!(err.get_uid(), "pcsc-monitoring-start");
    assert_eq!(err.get_info(), "Fail start reader monitoring thread reader=reader-0");
    let err = h.monitor(MonitorReply::Waited { rc: 0 }, NAME).err().unwrap();
    assert_eq!(err.get_uid(), "pcsc-monitoring-stop");
}
