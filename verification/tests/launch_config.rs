use process_supervisor::config::backend_arguments;
use process_supervisor::config::backend_program;
use process_supervisor::config::backend_working_dir;
use process_supervisor::config::ready_event_name;
use process_supervisor::config::READY_DELAY_MS;

#[test]
fn launch_configuration_is_fixed() {
    assert_eq!(backend_program(), "python");
    assert_eq!(
        backend_arguments(),
        vec![
            "manage.py".to_string(),
            "runserver".to_string(),
            "127.0.0.1:8000".to_string()
        ]
    );
    assert_eq!(backend_working_dir(), "../profit");
}

#[test]
fn readiness_configuration_is_fixed() {
    assert_eq!(READY_DELAY_MS, 2000);
    assert_eq!(ready_event_name(), "ready");
}
