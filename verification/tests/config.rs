use downtime::config::Config;
use downtime::monitor::Phase;
use downtime::probe::PingEvent;
use downtime::state::MonitorState;

#[test]
fn default_settings() {
    assert_eq!(
        Config::default(),
        Config {
            gateway: String::from("192.168.1.1"),
            primary: String::from("8.8.8.8"),
            fallbacks: vec![String::from("4.2.2.2"), String::from("bbc.co.uk")],
            interval_secs: 15,
            log_path: String::from("/home/j/Documents/downtime.log"),
        }
    );
}

#[test]
fn monitor_of_the_settings() {
    let config = Config {
        gateway: String::from("10.0.0.1"),
        primary: String::from("1.1.1.1"),
        fallbacks: vec![String::from("9.9.9.9")],
        interval_secs: 1,
        log_path: String::from("down.log"),
    };
    let monitor = config.monitor();
    assert_eq!(monitor.state(), MonitorState::new());
    assert_eq!(monitor.phase(), Phase::Gateway);
    assert_eq!(monitor.next_host(), "10.0.0.1");
    assert_eq!(*monitor.gateway(), PingEvent::new("10.0.0.1"));
    assert_eq!(*monitor.primary(), PingEvent::new("1.1.1.1"));
    assert_eq!(*monitor.fallbacks(), vec![PingEvent::new("9.9.9.9")]);
}
