use vnstat_rs_api::model::vnstat::{Created, Date, Interface, Time, Total, Traffic, Updated, VnstatData};
use vnstat_rs_api::service::vnstat_service::{
    build_live_stream_command, fetch_interface_stats, get_vnstat_executable,
    list_vnstat_interfaces, set_vnstat_executable, traffic_location, ServiceError, VnstatService,
};

fn interface(name: &str, alias: &str) -> Interface {
    let date = Date { day: Some(1), month: Some(2), year: 2024 };
    Interface {
        alias: alias.to_string(),
        created: Created { date: date.clone(), timestamp: 1 },
        name: name.to_string(),
        traffic: Traffic {
            day: Vec::new(),
            fiveminute: Vec::new(),
            hour: Vec::new(),
            month: Vec::new(),
            top: Vec::new(),
            total: Total { rx: 10, tx: 20 },
            year: Vec::new(),
        },
        updated: Updated { date, time: Time { hour: 3, minute: 4 }, timestamp: 2 },
    }
}

fn report(interfaces: Vec<Interface>) -> VnstatData {
    VnstatData { interfaces, jsonversion: "2".to_string(), vnstatversion: "2.10".to_string() }
}

#[test]
fn executable_is_set_once() {
    let mut service = VnstatService::new();
    assert_eq!(get_vnstat_executable(&service), Err(ServiceError::ExecutableNotSet));
    assert_eq!(set_vnstat_executable(&mut service, "/usr/bin/vnstat"), Ok(()));
    assert_eq!(get_vnstat_executable(&service), Ok(&"/usr/bin/vnstat".to_string()));
    assert_eq!(
        set_vnstat_executable(&mut service, "/opt/vnstat"),
        Err(ServiceError::ExecutableAlreadySet)
    );
    assert_eq!(get_vnstat_executable(&service), Ok(&"/usr/bin/vnstat".to_string()));
}

#[test]
fn service_errors_have_their_texts() {
    assert_eq!(ServiceError::ExecutableAlreadySet.message(), "vnStat executable already set");
    assert_eq!(
        ServiceError::ExecutableNotSet.message(),
        "vnStat executable not set (call set_executable first)"
    );
    assert_eq!(ServiceError::InterfaceNotFound.message(), "interface not found");
}

#[test]
fn live_stream_command_has_five_words() {
    let mut service = VnstatService::new();
    set_vnstat_executable(&mut service, "/usr/bin/vnstat").unwrap();
    assert_eq!(
        build_live_stream_command(&service, "eth0"),
        Ok(vec![
            "/usr/bin/vnstat".to_string(),
            "-i".to_string(),
            "eth0".to_string(),
            "--json".to_string(),
            "-l".to_string(),
        ])
    );
}

#[test]
fn live_stream_command_needs_the_executable() {
    let service = VnstatService::new();
    assert_eq!(build_live_stream_command(&service, "eth0"), Err(ServiceError::ExecutableNotSet));
}

#[test]
fn interface_names_come_in_report_order() {
    let data = report(vec![interface("eth0", "lan"), interface("wlan0", ""), interface("eth1", "")]);
    assert_eq!(list_vnstat_interfaces(&data), vec!["eth0", "wlan0", "eth1"]);
    assert_eq!(data.interface_names(), vec!["eth0", "wlan0", "eth1"]);
    assert!(list_vnstat_interfaces(&report(Vec::new())).is_empty());
}

#[test]
fn interface_is_found_by_name() {
    let data = report(vec![interface("eth0", "lan"), interface("wlan0", "air")]);
    let found = fetch_interface_stats(&data, "wlan0").unwrap();
    assert_eq!(found.name, "wlan0");
    assert_eq!(found.alias, "air");
    assert_eq!(found.traffic.total.tx, 20);
}

#[test]
fn first_interface_of_a_name_wins() {
    let data = report(vec![interface("eth0", "first"), interface("eth0", "second")]);
    assert_eq!(fetch_interface_stats(&data, "eth0").unwrap().alias, "first");
    assert_eq!(data.find_interface("eth0").unwrap().alias, "first");
}

#[test]
fn unknown_interface_is_an_error() {
    let data = report(vec![interface("eth0", "lan")]);
    assert_eq!(fetch_interface_stats(&data, "eth1").unwrap_err(), ServiceError::InterfaceNotFound);
    assert_eq!(fetch_interface_stats(&data, "ETH0").unwrap_err(), ServiceError::InterfaceNotFound);
    assert!(data.find_interface("eth").is_none());
    assert!(report(Vec::new()).find_interface("eth0").is_none());
}

#[test]
fn interface_request_is_sent_on_to_its_traffic() {
    assert_eq!(traffic_location("eth0"), "eth0/traffic");
    assert_eq!(traffic_location(""), "/traffic");
}
