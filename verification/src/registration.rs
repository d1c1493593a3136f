//! The sequence that binds the bridge to the app's Java classes: keep the
//! Java VM, find and keep both service classes, then register the native
//! methods, the required ones together and each optional one on its own.
//!
//! `Registration` names the next JNI operation; the caller performs it and
//! reports how it went, and `advance` decides what comes next.
use vstd::prelude::*;
use crate::callbacks::ServiceClass;
use crate::natives::{NativeEntry, OPTIONAL_NATIVE_COUNT, optional_natives, spec_optional_natives};
use crate::session::Session;

verus! {

/// Where a registration stands.
#[derive(Debug, Clone, Copy, PartialEq, Eq, Structural)]
pub enum RegistrationStep {
    AcquireJavaVm,
    FindMainClass,
    PinMainClass,
    StoreMainClass,
    FindInputClass,
    PinInputClass,
    StoreInputClass,
    FindMainForNatives,
    RegisterRequired,
    /// Registering the optional method with this index.
    RegisterOptional(usize),
    Finished,
}

/// The JNI operation the caller performs next.
#[derive(Debug, Clone, PartialEq, Eq)]
pub enum RegistrationAction {
    /// Obtain the Java VM from the environment and keep it (a VM kept
    /// before may be replaced or stay); report `Ok` when one was obtained.
    AcquireJavaVm,
    /// Look up the class with this JNI name.
    FindClass { class: ServiceClass, name: String },
    /// Make a global reference to the class found last.
    PinClass(ServiceClass),
    /// Keep that global reference for callbacks.
    StoreClass(ServiceClass),
    /// Register every method of `required_natives` with the class found last.
    RegisterRequired,
    /// Register this method with the class found last; on failure clear the
    /// pending Java exception.
    RegisterOptional(NativeEntry),
}

/// A registration in progress.
pub struct Registration {
    main_class: String,
    input_class: String,
    step: RegistrationStep,
    result: Option<Result<(), String>>,
}

/// What a registration is, in mathematical terms.
pub struct RegistrationView {
    pub main_class: Seq<char>,
    pub input_class: Seq<char>,
    pub step: RegistrationStep,
    pub result: Option<Result<(), Seq<char>>>,
}

/// A `Result` with its error text taken as a sequence of characters.
pub open spec fn outcome_view(o: Result<(), String>) -> Result<(), Seq<char>> {
    match o {
        Ok(()) => Ok(()),
        Err(e) => Err(e@),
    }
}

pub open spec fn result_view(r: Option<Result<(), String>>) -> Option<Result<(), Seq<char>>> {
    match r {
        Some(o) => Some(outcome_view(o)),
        None => None,
    }
}

impl View for Registration {
    type V = RegistrationView;

    closed spec fn view(&self) -> RegistrationView {
        RegistrationView {
            main_class: self.main_class@,
            input_class: self.input_class@,
            step: self.step,
            result: result_view(self.result),
        }
    }
}

/// The step after `step` when it succeeds, for the steps that end in
/// failure when their operation fails.
pub open spec fn next_step(step: RegistrationStep) -> RegistrationStep {
    match step {
        RegistrationStep::AcquireJavaVm => RegistrationStep::FindMainClass,
        RegistrationStep::FindMainClass => RegistrationStep::PinMainClass,
        RegistrationStep::PinMainClass => RegistrationStep::StoreMainClass,
        RegistrationStep::StoreMainClass => RegistrationStep::FindInputClass,
        RegistrationStep::FindInputClass => RegistrationStep::PinInputClass,
        RegistrationStep::PinInputClass => RegistrationStep::StoreInputClass,
        RegistrationStep::StoreInputClass => RegistrationStep::FindMainForNatives,
        RegistrationStep::FindMainForNatives => RegistrationStep::RegisterRequired,
        RegistrationStep::RegisterRequired => RegistrationStep::RegisterOptional(0),
        RegistrationStep::RegisterOptional(i) => if i + 1 < OPTIONAL_NATIVE_COUNT {
            RegistrationStep::RegisterOptional((i + 1) as usize)
        } else {
            RegistrationStep::Finished
        },
        RegistrationStep::Finished => RegistrationStep::Finished,
    }
}

/// The error text reported when `step` fails with the JNI error `err`.
pub open spec fn failure_message(
    step: RegistrationStep,
    main_class: Seq<char>,
    input_class: Seq<char>,
    err: Seq<char>,
) -> Seq<char> {
    match step {
        RegistrationStep::FindMainClass => "Failed to find MainService class '"@ + main_class + "': "@
            + err,
        RegistrationStep::PinMainClass => "Failed to create global ref for MainService: "@ + err,
        RegistrationStep::FindInputClass => "Failed to find InputService class '"@ + input_class
            + "': "@ + err,
        RegistrationStep::PinInputClass => "Failed to create global ref for InputService: "@ + err,
        RegistrationStep::FindMainForNatives => "Failed to find MainService for registration: "@
            + err,
        RegistrationStep::RegisterRequired => "Failed to register required MainService natives: "@
            + err,
        _ => err,
    }
}

/// The error reported when the main class reference is kept already.
pub open spec fn main_already_set() -> Seq<char> {
    "MAIN_SERVICE_CLASS was already set"@
}

/// The error reported when the input class reference is kept already.
pub open spec fn input_already_set() -> Seq<char> {
    "INPUT_SERVICE_CLASS was already set"@
}

impl RegistrationView {
    /// A registration ends exactly when it has a result, and an optional
    /// method index stays within the optional table.
    pub open spec fn wf(self) -> bool {
        &&& (self.step is Finished <==> self.result is Some)
        &&& (self.step matches RegistrationStep::RegisterOptional(i) ==> i < OPTIONAL_NATIVE_COUNT)
    }

    pub open spec fn moved_to(self, step: RegistrationStep) -> RegistrationView {
        RegistrationView { step, ..self }
    }

    pub open spec fn ended(self, result: Result<(), Seq<char>>) -> RegistrationView {
        RegistrationView { step: RegistrationStep::Finished, result: Some(result), ..self }
    }

    /// The operation the caller performs next, if any.
    pub open spec fn action_is(self, a: Option<RegistrationAction>) -> bool {
        match self.step {
            RegistrationStep::AcquireJavaVm => a == Some(RegistrationAction::AcquireJavaVm),
            RegistrationStep::FindMainClass => a matches Some(
                RegistrationAction::FindClass { class, name },
            ) && class == ServiceClass::Main && name@ == self.main_class,
            RegistrationStep::PinMainClass => a == Some(
                RegistrationAction::PinClass(ServiceClass::Main),
            ),
            RegistrationStep::StoreMainClass => a == Some(
                RegistrationAction::StoreClass(ServiceClass::Main),
            ),
            RegistrationStep::FindInputClass => a matches Some(
                RegistrationAction::FindClass { class, name },
            ) && class == ServiceClass::Input && name@ == self.input_class,
            RegistrationStep::PinInputClass => a == Some(
                RegistrationAction::PinClass(ServiceClass::Input),
            ),
            RegistrationStep::StoreInputClass => a == Some(
                RegistrationAction::StoreClass(ServiceClass::Input),
            ),
            RegistrationStep::FindMainForNatives => a matches Some(
                RegistrationAction::FindClass { class, name },
            ) && class == ServiceClass::Main && name@ == self.main_class,
            RegistrationStep::RegisterRequired => a == Some(RegistrationAction::RegisterRequired),
            RegistrationStep::RegisterOptional(i) => a == Some(
                RegistrationAction::RegisterOptional(spec_optional_natives()[i as int]),
            ),
            RegistrationStep::Finished => a is None,
        }
    }
}

/// How a registration and the session move on once the operation of the
/// current step is reported to have gone `outcome`.
pub open spec fn spec_advance(v: RegistrationView, s: Session, outcome: Result<(), Seq<char>>) -> (
    RegistrationView,
    Session,
) {
    match v.step {
        RegistrationStep::Finished => (v, s),
        RegistrationStep::AcquireJavaVm => (
            v.moved_to(RegistrationStep::FindMainClass),
            Session { java_vm_ready: s.java_vm_ready || outcome is Ok, ..s },
        ),
        RegistrationStep::PinMainClass => if outcome is Ok && s.main_class_ready {
            (v.ended(Err(main_already_set())), s)
        } else {
            match outcome {
                Ok(()) => (v.moved_to(RegistrationStep::StoreMainClass), s),
                Err(e) => (
                    v.ended(Err(failure_message(v.step, v.main_class, v.input_class, e))),
                    s,
                ),
            }
        },
        RegistrationStep::PinInputClass => if outcome is Ok && s.input_class_ready {
            (v.ended(Err(input_already_set())), s)
        } else {
            match outcome {
                Ok(()) => (v.moved_to(RegistrationStep::StoreInputClass), s),
                Err(e) => (
                    v.ended(Err(failure_message(v.step, v.main_class, v.input_class, e))),
                    s,
                ),
            }
        },
        RegistrationStep::StoreMainClass => (
            v.moved_to(RegistrationStep::FindInputClass),
            Session { main_class_ready: true, ..s },
        ),
        RegistrationStep::StoreInputClass => (
            v.moved_to(RegistrationStep::FindMainForNatives),
            Session { input_class_ready: true, ..s },
        ),
        RegistrationStep::RegisterOptional(i) => if i + 1 < OPTIONAL_NATIVE_COUNT {
            (v.moved_to(RegistrationStep::RegisterOptional((i + 1) as usize)), s)
        } else {
            (v.ended(Ok(())), s)
        },
        _ => match outcome {
            Ok(()) => (v.moved_to(next_step(v.step)), s),
            Err(e) => (v.ended(Err(failure_message(v.step, v.main_class, v.input_class, e))), s),
        },
    }
}

/// `a`, `b` and `c` joined.
fn join3(a: &str, b: &str, c: &str) -> (r: String)
    ensures
        r@ == a@ + b@ + c@,
{
    let mut r = String::from_str(a);
    r.append(b);
    r.append(c);
    r
}

/// `a` followed by `b`.
fn join2(a: &str, b: &str) -> (r: String)
    ensures
        r@ == a@ + b@,
{
    let mut r = String::from_str(a);
    r.append(b);
    r
}

fn clone_outcome(o: &Result<(), String>) -> (r: Result<(), String>)
    ensures
        outcome_view(r) == outcome_view(*o),
{
    match o {
        Ok(()) => Ok(()),
        Err(e) => Err(e.clone()),
    }
}

impl Registration {
    /// A registration of the natives for the JNI class names `main_class`
    /// and `input_class` (such as `com/example/app/MainService`).
    pub fn new(main_class: String, input_class: String) -> (r: Registration)
        ensures
            r@ == (RegistrationView {
                main_class: main_class@,
                input_class: input_class@,
                step: RegistrationStep::AcquireJavaVm,
                result: None,
            }),
            r@.wf(),
    {
        Registration { main_class, input_class, step: RegistrationStep::AcquireJavaVm, result: None }
    }

    pub fn step(&self) -> (r: RegistrationStep)
        ensures
            r == self@.step,
    {
        self.step
    }

    /// How the registration ended, once it has.
    pub fn result(&self) -> (r: Option<Result<(), String>>)
        ensures
            result_view(r) == self@.result,
    {
        match &self.result {
            Some(o) => Some(clone_outcome(o)),
            None => None,
        }
    }

    /// The operation to perform next, `None` once the registration ended.
    pub fn next_action(&self) -> (r: Option<RegistrationAction>)
        requires
            self@.wf(),
        ensures
            self@.action_is(r),
    {
        match self.step {
            RegistrationStep::AcquireJavaVm => Some(RegistrationAction::AcquireJavaVm),
            RegistrationStep::FindMainClass | RegistrationStep::FindMainForNatives => Some(
                RegistrationAction::FindClass {
                    class: ServiceClass::Main,
                    name: self.main_class.clone(),
                },
            ),
            RegistrationStep::PinMainClass => Some(RegistrationAction::PinClass(ServiceClass::Main)),
            RegistrationStep::StoreMainClass => Some(
                RegistrationAction::StoreClass(ServiceClass::Main),
            ),
            RegistrationStep::FindInputClass => Some(
                RegistrationAction::FindClass {
                    class: ServiceClass::Input,
                    name: self.input_class.clone(),
                },
            ),
            RegistrationStep::PinInputClass => Some(
                RegistrationAction::PinClass(ServiceClass::Input),
            ),
            RegistrationStep::StoreInputClass => Some(
                RegistrationAction::StoreClass(ServiceClass::Input),
            ),
            RegistrationStep::RegisterRequired => Some(RegistrationAction::RegisterRequired),
            RegistrationStep::RegisterOptional(i) => {
                let table = optional_natives();
                Some(RegistrationAction::RegisterOptional(table[i]))
            },
            RegistrationStep::Finished => None,
        }
    }

    fn end(&mut self, result: Result<(), String>)
        ensures
            final(self)@ == old(self)@.ended(outcome_view(result)),
    {
        self.step = RegistrationStep::Finished;
        self.result = Some(result);
    }

    /// Reports how the operation of the current step went (`Err` carries
    /// the JNI error text) and moves on.
    pub fn advance(&mut self, session: &mut Session, outcome: Result<(), String>)
        requires
            old(self)@.wf(),
        ensures
            (final(self)@, *final(session)) == spec_advance(
                old(self)@,
                *old(session),
                outcome_view(outcome),
            ),
            final(self)@.wf(),
    {
        match self.step {
            RegistrationStep::Finished => {},
            RegistrationStep::AcquireJavaVm => {
                if outcome.is_ok() {
                    session.java_vm_ready = true;
                }
                self.step = RegistrationStep::FindMainClass;
            },
            RegistrationStep::FindMainClass => match outcome {
                Ok(()) => self.step = RegistrationStep::PinMainClass,
                Err(e) => {
                    let msg = join3("Failed to find MainService class '", self.main_class.as_str(), "': ");
                    let msg = join2(msg.as_str(), e.as_str());
                    self.end(Err(msg));
                },
            },
            RegistrationStep::PinMainClass => match outcome {
                Ok(()) => {
                    if session.main_class_ready {
                        self.end(Err(String::from_str("MAIN_SERVICE_CLASS was already set")));
                    } else {
                        self.step = RegistrationStep::StoreMainClass;
                    }
                },
                Err(e) => {
                    self.end(Err(join2("Failed to create global ref for MainService: ", e.as_str())));
                },
            },
            RegistrationStep::StoreMainClass => {
                session.main_class_ready = true;
                self.step = RegistrationStep::FindInputClass;
            },
            RegistrationStep::FindInputClass => match outcome {
                Ok(()) => self.step = RegistrationStep::PinInputClass,
                Err(e) => {
                    let msg = join3("Failed to find InputService class '", self.input_class.as_str(), "': ");
                    let msg = join2(msg.as_str(), e.as_str());
                    self.end(Err(msg));
                },
            },
            RegistrationStep::PinInputClass => match outcome {
                Ok(()) => {
                    if session.input_class_ready {
                        self.end(Err(String::from_str("INPUT_SERVICE_CLASS was already set")));
                    } else {
                        self.step = RegistrationStep::StoreInputClass;
                    }
                },
                Err(e) => {
                    self.end(Err(join2("Failed to create global ref for InputService: ", e.as_str())));
                },
            },
            RegistrationStep::StoreInputClass => {
                session.input_class_ready = true;
                self.step = RegistrationStep::FindMainForNatives;
            },
            RegistrationStep::FindMainForNatives => match outcome {
                Ok(()) => self.step = RegistrationStep::RegisterRequired,
                Err(e) => {
                    self.end(Err(join2("Failed to find MainService for registration: ", e.as_str())));
                },
            },
            RegistrationStep::RegisterRequired => match outcome {
                Ok(()) => self.step = RegistrationStep::RegisterOptional(0),
                Err(e) => {
                    self.end(Err(join2("Failed to register required MainService natives: ", e.as_str())));
                },
            },
            RegistrationStep::RegisterOptional(i) => {
                if i + 1 < OPTIONAL_NATIVE_COUNT {
                    self.step = RegistrationStep::RegisterOptional(i + 1);
                } else {
                    self.end(Ok(()));
                }
            },
        }
    }
}

/// The log tag used when the app does not configure one.
pub const DEFAULT_LOG_TAG: &'static str = "RustVNC";

/// What the library does when Java loads it.
#[derive(Debug, Clone, PartialEq, Eq)]
pub struct LoadPlan {
    /// The tag under which the library logs.
    pub log_tag: String,
    /// The main and input service class names to register with; `None`
    /// leaves registration to the app.
    pub classes: Option<(String, String)>,
}

/// Decides, from the Java system properties `rustvnc.main_service_class`,
/// `rustvnc.input_service_class` and `rustvnc.log_tag` (`None` when unset),
/// whether loading registers the natives: it does when both class names are
/// set. The log tag defaults to `DEFAULT_LOG_TAG`.
pub fn plan_on_load(
    main_class: Option<String>,
    input_class: Option<String>,
    log_tag: Option<String>,
) -> (r: LoadPlan)
    ensures
        r.log_tag@ == match log_tag {
            Some(t) => t@,
            None => DEFAULT_LOG_TAG@,
        },
        r.classes == match (main_class, input_class) {
            (Some(m), Some(i)) => Some((m, i)),
            _ => None,
        },
{
    let tag = match log_tag {
        Some(t) => t,
        None => String::from_str(DEFAULT_LOG_TAG),
    };
    let classes = match (main_class, input_class) {
        (Some(m), Some(i)) => Some((m, i)),
        _ => None,
    };
    LoadPlan { log_tag: tag, classes }
}

/// Whether loading succeeds: unless a registration was made and failed.
pub fn load_accepted(registration: &Option<Result<(), String>>) -> (r: bool)
    ensures
        r == !(registration matches Some(Err(_))),
{
    match registration {
        Some(Err(_)) => false,
        _ => true,
    }
}

/// How far a registration has come: every step that does not end it moves
/// to a higher rank, and no step ranks above `Finished`.
pub open spec fn step_rank(step: RegistrationStep) -> nat {
    match step {
        RegistrationStep::AcquireJavaVm => 0,
        RegistrationStep::FindMainClass => 1,
        RegistrationStep::PinMainClass => 2,
        RegistrationStep::StoreMainClass => 3,
        RegistrationStep::FindInputClass => 4,
        RegistrationStep::PinInputClass => 5,
        RegistrationStep::StoreInputClass => 6,
        RegistrationStep::FindMainForNatives => 7,
        RegistrationStep::RegisterRequired => 8,
        RegistrationStep::RegisterOptional(i) => (9 + i) as nat,
        RegistrationStep::Finished => (9 + OPTIONAL_NATIVE_COUNT) as nat,
    }
}

/// The registration and session after `n` operations that all succeed.
pub open spec fn run_successes(v: RegistrationView, s: Session, n: nat) -> (RegistrationView, Session)
    decreases n,
{
    if n == 0 {
        (v, s)
    } else {
        let (v1, s1) = spec_advance(v, s, Ok(()));
        run_successes(v1, s1, (n - 1) as nat)
    }
}

/// The registration of `main_class` and `input_class` before any operation.
pub open spec fn fresh(main_class: Seq<char>, input_class: Seq<char>) -> RegistrationView {
    RegistrationView {
        main_class,
        input_class,
        step: RegistrationStep::AcquireJavaVm,
        result: None,
    }
}

/// A registration always ends: each report of an unfinished registration
/// moves it to a higher rank, below the rank of the end, and keeps it
/// well formed.
pub proof fn registration_progresses(v: RegistrationView, s: Session, outcome: Result<(), Seq<char>>)
    requires
        v.wf(),
        !(v.step is Finished),
    ensures
        spec_advance(v, s, outcome).0.wf(),
        step_rank(v.step) < step_rank(spec_advance(v, s, outcome).0.step),
        step_rank(spec_advance(v, s, outcome).0.step) <= step_rank(RegistrationStep::Finished),
{
}

/// A missing optional native never makes the registration fail: its
/// failure moves on exactly as its success does.
pub proof fn optional_failure_is_skipped(v: RegistrationView, s: Session, err: Seq<char>)
    requires
        v.step is RegisterOptional,
    ensures
        spec_advance(v, s, Err(err)) == spec_advance(v, s, Ok(())),
{
}

/// Any failed lookup, reference or required registration ends the
/// registration with its error text, and leaves the session as it was.
pub proof fn required_failure_ends(v: RegistrationView, s: Session, err: Seq<char>)
    requires
        v.step is FindMainClass || v.step is PinMainClass || v.step is FindInputClass
            || v.step is PinInputClass || v.step is FindMainForNatives || v.step is RegisterRequired,
    ensures
        spec_advance(v, s, Err(err)) == (
            v.ended(Err(failure_message(v.step, v.main_class, v.input_class, err))),
            s,
        ),
{
}

/// When every operation succeeds on a session that keeps no class yet, the
/// registration ends successfully after one operation per step, and the
/// Java VM and both classes are then kept.
pub proof fn successful_registration(main_class: Seq<char>, input_class: Seq<char>, s: Session)
    requires
        !s.main_class_ready,
        !s.input_class_ready,
    ensures
        ({
            let (v, s2) = run_successes(
                fresh(main_class, input_class),
                s,
                step_rank(RegistrationStep::Finished),
            );
            &&& v.result == Some(Ok::<(), Seq<char>>(()))
            &&& s2 == (Session { java_vm_ready: true, main_class_ready: true, input_class_ready: true, ..s })
        }),
{
    reveal_with_fuel(run_successes, 24);
}

/// The class references are kept once: a registration on a session that
/// already keeps the main class fails at its third operation with the
/// "already set" error, even when every operation succeeds.
pub proof fn second_registration_fails(main_class: Seq<char>, input_class: Seq<char>, s: Session)
    requires
        s.main_class_ready,
    ensures
        run_successes(fresh(main_class, input_class), s, 3).0.result == Some(
            Err::<(), Seq<char>>(main_already_set()),
        ),
{
    reveal_with_fuel(run_successes, 4);
}

} // verus!
