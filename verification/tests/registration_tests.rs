use rustvncserver_android::callbacks::ServiceClass;
use rustvncserver_android::natives::{optional_natives, required_natives, NativeEntry};
use rustvncserver_android::registration::{
    load_accepted, plan_on_load, LoadPlan, Registration, RegistrationAction, RegistrationStep,
};
use rustvncserver_android::session::Session;

const MAIN: &str = "com/example/vnc/MainService";
const INPUT: &str = "com/example/vnc/InputService";

fn new_registration() -> Registration {
    Registration::new(MAIN.to_string(), INPUT.to_string())
}

/// Drives a registration, answering each operation with `answer`.
fn drive(
    reg: &mut Registration,
    session: &mut Session,
    answer: &dyn Fn(&RegistrationAction) -> Result<(), String>,
) -> Vec<RegistrationAction> {
    let mut actions = Vec::new();
    let mut guard = 0;
    while let Some(a) = reg.next_action() {
        let outcome = answer(&a);
        actions.push(a);
        reg.advance(session, outcome);
        guard += 1;
        assert!(guard <= 23);
    }
    actions
}

#[test]
fn successful_registration_visits_every_step() {
    let mut session = Session::new();
    let mut reg = new_registration();
    let actions = drive(&mut reg, &mut session, &|_| Ok(()));
    assert_eq!(actions.len(), 23);
    assert_eq!(actions[0], RegistrationAction::AcquireJavaVm);
    assert_eq!(
        actions[1],
        RegistrationAction::FindClass { class: ServiceClass::Main, name: MAIN.to_string() }
    );
    assert_eq!(actions[2], RegistrationAction::PinClass(ServiceClass::Main));
    assert_eq!(actions[3], RegistrationAction::StoreClass(ServiceClass::Main));
    assert_eq!(
        actions[4],
        RegistrationAction::FindClass { class: ServiceClass::Input, name: INPUT.to_string() }
    );
    assert_eq!(actions[5], RegistrationAction::PinClass(ServiceClass::Input));
    assert_eq!(actions[6], RegistrationAction::StoreClass(ServiceClass::Input));
    assert_eq!(
        actions[7],
        RegistrationAction::FindClass { class: ServiceClass::Main, name: MAIN.to_string() }
    );
    assert_eq!(actions[8], RegistrationAction::RegisterRequired);
    assert_eq!(actions[9], RegistrationAction::RegisterOptional(NativeEntry::UpdateFramebuffer));
    assert_eq!(actions[22], RegistrationAction::RegisterOptional(NativeEntry::DoCopyRect));
    assert_eq!(reg.result(), Some(Ok(())));
    assert_eq!(reg.step(), RegistrationStep::Finished);
    assert!(session.java_vm_ready && session.main_class_ready && session.input_class_ready);
}

#[test]
fn missing_main_class_reports_its_name() {
    let mut session = Session::new();
    let mut reg = new_registration();
    drive(&mut reg, &mut session, &|a| match a {
        RegistrationAction::FindClass { class: ServiceClass::Main, .. } => {
            Err("ClassNotFound".to_string())
        }
        _ => Ok(()),
    });
    assert_eq!(
        reg.result(),
        Some(Err(
            "Failed to find MainService class 'com/example/vnc/MainService': ClassNotFound"
                .to_string()
        ))
    );
    assert!(session.java_vm_ready);
    assert!(!session.main_class_ready);
}

#[test]
fn missing_input_class_reports_its_name() {
    let mut session = Session::new();
    let mut reg = new_registration();
    drive(&mut reg, &mut session, &|a| match a {
        RegistrationAction::FindClass { class: ServiceClass::Input, .. } => Err("nope".to_string()),
        _ => Ok(()),
    });
    assert_eq!(
        reg.result(),
        Some(Err(
            "Failed to find InputService class 'com/example/vnc/InputService': nope".to_string()
        ))
    );
    assert!(session.main_class_ready);
    assert!(!session.input_class_ready);
}

#[test]
fn failed_global_references() {
    let mut session = Session::new();
    let mut reg = new_registration();
    drive(&mut reg, &mut session, &|a| match a {
        RegistrationAction::PinClass(ServiceClass::Main) => Err("oom".to_string()),
        _ => Ok(()),
    });
    assert_eq!(
        reg.result(),
        Some(Err("Failed to create global ref for MainService: oom".to_string()))
    );
    let mut session = Session::new();
    let mut reg = new_registration();
    drive(&mut reg, &mut session, &|a| match a {
        RegistrationAction::PinClass(ServiceClass::Input) => Err("oom".to_string()),
        _ => Ok(()),
    });
    assert_eq!(
        reg.result(),
        Some(Err("Failed to create global ref for InputService: oom".to_string()))
    );
}

#[test]
fn failed_required_registration() {
    let mut session = Session::new();
    let mut reg = new_registration();
    drive(&mut reg, &mut session, &|a| match a {
        RegistrationAction::RegisterRequired => Err("NoSuchMethodError".to_string()),
        _ => Ok(()),
    });
    assert_eq!(
        reg.result(),
        Some(Err(
            "Failed to register required MainService natives: NoSuchMethodError".to_string()
        ))
    );
}

#[test]
fn failed_second_lookup_of_main_class() {
    let mut session = Session::new();
    let mut reg = new_registration();
    let c = std::cell::Cell::new(0);
    drive(&mut reg, &mut session, &|a| match a {
        RegistrationAction::FindClass { class: ServiceClass::Main, .. } => {
            c.set(c.get() + 1);
            if c.get() == 2 {
                Err("gone".to_string())
            } else {
                Ok(())
            }
        }
        _ => Ok(()),
    });
    assert_eq!(
        reg.result(),
        Some(Err("Failed to find MainService for registration: gone".to_string()))
    );
}

#[test]
fn missing_optional_natives_are_skipped() {
    let mut session = Session::new();
    let mut reg = new_registration();
    let actions = drive(&mut reg, &mut session, &|a| match a {
        RegistrationAction::RegisterOptional(_) => Err("missing".to_string()),
        _ => Ok(()),
    });
    assert_eq!(actions.len(), 23);
    assert_eq!(reg.result(), Some(Ok(())));
}

#[test]
fn second_registration_fails_already_set() {
    let mut session = Session::new();
    let mut first = new_registration();
    drive(&mut first, &mut session, &|_| Ok(()));
    let mut second = new_registration();
    let actions = drive(&mut second, &mut session, &|_| Ok(()));
    assert_eq!(actions.len(), 3);
    assert_eq!(second.result(), Some(Err("MAIN_SERVICE_CLASS was already set".to_string())));
}

#[test]
fn input_class_kept_already() {
    let mut session = Session::new();
    session.input_class_ready = true;
    let mut reg = new_registration();
    drive(&mut reg, &mut session, &|_| Ok(()));
    assert_eq!(reg.result(), Some(Err("INPUT_SERVICE_CLASS was already set".to_string())));
}

#[test]
fn vm_unavailable_is_not_fatal() {
    let mut session = Session::new();
    let mut reg = new_registration();
    drive(&mut reg, &mut session, &|a| match a {
        RegistrationAction::AcquireJavaVm => Err("no vm".to_string()),
        _ => Ok(()),
    });
    assert_eq!(reg.result(), Some(Ok(())));
    assert!(!session.java_vm_ready);
}

#[test]
fn native_tables() {
    let req = required_natives();
    let opt = optional_natives();
    assert_eq!(req.len(), 5);
    assert_eq!(opt.len(), 14);
    assert_eq!(req[0].java_name(), "vncInit");
    assert_eq!(req[0].signature(), "()V");
    assert_eq!(req[1].java_name(), "vncStartServer");
    assert_eq!(
        req[1].signature(),
        "(IIILjava/lang/String;Ljava/lang/String;Ljava/lang/String;)Z"
    );
    assert_eq!(req[4].java_name(), "vncConnectRepeater");
    assert_eq!(req[4].signature(), "(Ljava/lang/String;ILjava/lang/String;Ljava/lang/String;)J");
    assert_eq!(opt[2].java_name(), "vncUpdateFramebufferCropped");
    assert_eq!(opt[2].signature(), "(Ljava/nio/ByteBuffer;IIIIII)Z");
    assert_eq!(opt[8].java_name(), "vncGetRemoteHost");
    assert_eq!(opt[8].signature(), "(J)Ljava/lang/String;");
    assert!(req.iter().all(|e| e.is_required()));
    assert!(opt.iter().all(|e| !e.is_required()));
    let mut names: Vec<&str> = req.iter().chain(opt.iter()).map(|e| e.java_name()).collect();
    names.sort();
    names.dedup();
    assert_eq!(names.len(), 19);
}

#[test]
fn load_plan_registers_when_both_classes_set() {
    assert_eq!(
        plan_on_load(Some(MAIN.to_string()), Some(INPUT.to_string()), Some("MyApp-VNC".to_string())),
        LoadPlan {
            log_tag: "MyApp-VNC".to_string(),
            classes: Some((MAIN.to_string(), INPUT.to_string())),
        }
    );
    assert_eq!(
        plan_on_load(Some(MAIN.to_string()), None, None),
        LoadPlan { log_tag: "RustVNC".to_string(), classes: None }
    );
    assert_eq!(plan_on_load(None, None, None).classes, None);
}

#[test]
fn load_fails_only_on_failed_registration() {
    assert!(load_accepted(&None));
    assert!(load_accepted(&Some(Ok(()))));
    assert!(!load_accepted(&Some(Err("x".to_string()))));
}
