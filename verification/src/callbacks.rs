//! Which Java static method the bridge calls for each event the VNC server
//! reports, with which JNI signature and which arguments.
use vstd::prelude::*;
use crate::params::{java_long, wrap_i64};

verus! {

/// An event reported by the VNC server, carried as plain values.
#[derive(Debug, Clone, PartialEq, Eq)]
pub enum BridgeEvent {
    ClientConnected { client_id: u64 },
    ClientDisconnected { client_id: u64 },
    KeyPress { client_id: u64, down: bool, key: u32 },
    PointerMove { client_id: u64, x: u16, y: u16, button_mask: u8 },
    CutText { client_id: u64, text: String },
    RfbMessageSent { client_id: u64, request_id: Option<String>, success: bool },
    HandshakeComplete { client_id: u64, request_id: Option<String>, success: bool },
}

/// The Java class that receives a callback.
#[derive(Debug, Clone, Copy, PartialEq, Eq)]
pub enum ServiceClass {
    /// The class given as the main service (connection lifecycle).
    Main,
    /// The class given as the input service (keys, pointer, clipboard).
    Input,
}

/// One argument of a Java call.
#[derive(Debug, Clone, PartialEq, Eq)]
pub enum CallbackArg {
    /// A Java `int`.
    Int(i32),
    /// A Java `long`.
    Long(i64),
    /// A Java `boolean`.
    Bool(bool),
    /// A Java `String` that must exist: when it cannot be created on the
    /// Java side the call is not made.
    Text(String),
    /// A Java `String` that may be `null`: `None`, or a text that cannot be
    /// created on the Java side, is passed as `null`.
    OptionalText(Option<String>),
}

/// The JNI type of an argument.
pub enum ArgKind {
    Int,
    Long,
    Bool,
    Text,
}

/// A call of a static Java method that reports an event.
#[derive(Debug, Clone, PartialEq, Eq)]
pub enum Callback {
    /// `MainService.onClientConnected(long clientId)`
    ClientConnected { client: i64 },
    /// `MainService.onClientDisconnected(long clientId)`
    ClientDisconnected { client: i64 },
    /// `InputService.onKeyEvent(int down, long keysym, long clientId)`
    KeyEvent { down: i32, keysym: i64, client: i64 },
    /// `InputService.onPointerEvent(int buttonMask, int x, int y, long clientId)`
    PointerEvent { button_mask: i32, x: i32, y: i32, client: i64 },
    /// `InputService.onCutText(String text, long clientId)`
    CutText { text: String, client: i64 },
    /// `MainService.notifyRfbMessageSent(String requestId, boolean success)`
    RfbMessageSent { request_id: Option<String>, success: bool },
    /// `MainService.notifyHandshakeComplete(String requestId, boolean success)`
    HandshakeComplete { request_id: Option<String>, success: bool },
}

impl CallbackArg {
    pub open spec fn kind(self) -> ArgKind {
        match self {
            CallbackArg::Int(_) => ArgKind::Int,
            CallbackArg::Long(_) => ArgKind::Long,
            CallbackArg::Bool(_) => ArgKind::Bool,
            CallbackArg::Text(_) => ArgKind::Text,
            CallbackArg::OptionalText(_) => ArgKind::Text,
        }
    }
}

/// The JNI type code of one argument kind.
pub open spec fn kind_code(k: ArgKind) -> Seq<char> {
    match k {
        ArgKind::Int => seq!['I'],
        ArgKind::Long => seq!['J'],
        ArgKind::Bool => seq!['Z'],
        ArgKind::Text => seq!['L', 'j', 'a', 'v', 'a', '/', 'l', 'a', 'n', 'g', '/', 'S', 't', 'r', 'i', 'n', 'g', ';'],
    }
}

/// The type codes of a list of arguments, in order.
pub open spec fn args_codes(args: Seq<CallbackArg>) -> Seq<char>
    decreases args.len(),
{
    if args.len() == 0 {
        Seq::empty()
    } else {
        kind_code(args[0].kind()) + args_codes(args.drop_first())
    }
}

/// The JNI descriptor of a static `void` method taking `args`.
pub open spec fn void_descriptor(args: Seq<CallbackArg>) -> Seq<char> {
    seq!['('] + args_codes(args) + seq![')', 'V']
}

impl Callback {
    /// The class whose static method is called.
    pub open spec fn spec_class(self) -> ServiceClass {
        match self {
            Callback::ClientConnected { .. } => ServiceClass::Main,
            Callback::ClientDisconnected { .. } => ServiceClass::Main,
            Callback::KeyEvent { .. } => ServiceClass::Input,
            Callback::PointerEvent { .. } => ServiceClass::Input,
            Callback::CutText { .. } => ServiceClass::Input,
            Callback::RfbMessageSent { .. } => ServiceClass::Main,
            Callback::HandshakeComplete { .. } => ServiceClass::Main,
        }
    }

    /// The name of the static method.
    pub open spec fn spec_method_name(self) -> &'static str {
        match self {
            Callback::ClientConnected { .. } => "onClientConnected",
            Callback::ClientDisconnected { .. } => "onClientDisconnected",
            Callback::KeyEvent { .. } => "onKeyEvent",
            Callback::PointerEvent { .. } => "onPointerEvent",
            Callback::CutText { .. } => "onCutText",
            Callback::RfbMessageSent { .. } => "notifyRfbMessageSent",
            Callback::HandshakeComplete { .. } => "notifyHandshakeComplete",
        }
    }

    /// The JNI signature of the static method.
    pub open spec fn spec_signature(self) -> &'static str {
        match self {
            Callback::ClientConnected { .. } => "(J)V",
            Callback::ClientDisconnected { .. } => "(J)V",
            Callback::KeyEvent { .. } => "(IJJ)V",
            Callback::PointerEvent { .. } => "(IIIJ)V",
            Callback::CutText { .. } => "(Ljava/lang/String;J)V",
            Callback::RfbMessageSent { .. } => "(Ljava/lang/String;Z)V",
            Callback::HandshakeComplete { .. } => "(Ljava/lang/String;Z)V",
        }
    }

    /// The arguments, in the order of the Java parameters.
    pub open spec fn spec_arguments(self) -> Seq<CallbackArg> {
        match self {
            Callback::ClientConnected { client } => seq![CallbackArg::Long(client)],
            Callback::ClientDisconnected { client } => seq![CallbackArg::Long(client)],
            Callback::KeyEvent { down, keysym, client } => seq![
                CallbackArg::Int(down),
                CallbackArg::Long(keysym),
                CallbackArg::Long(client),
            ],
            Callback::PointerEvent { button_mask, x, y, client } => seq![
                CallbackArg::Int(button_mask),
                CallbackArg::Int(x),
                CallbackArg::Int(y),
                CallbackArg::Long(client),
            ],
            Callback::CutText { text, client } => seq![
                CallbackArg::Text(text),
                CallbackArg::Long(client),
            ],
            Callback::RfbMessageSent { request_id, success } => seq![
                CallbackArg::OptionalText(request_id),
                CallbackArg::Bool(success),
            ],
            Callback::HandshakeComplete { request_id, success } => seq![
                CallbackArg::OptionalText(request_id),
                CallbackArg::Bool(success),
            ],
        }
    }

    pub fn class(&self) -> (r: ServiceClass)
        ensures
            r == self.spec_class(),
    {
        match self {
            Callback::ClientConnected { .. } => ServiceClass::Main,
            Callback::ClientDisconnected { .. } => ServiceClass::Main,
            Callback::KeyEvent { .. } => ServiceClass::Input,
            Callback::PointerEvent { .. } => ServiceClass::Input,
            Callback::CutText { .. } => ServiceClass::Input,
            Callback::RfbMessageSent { .. } => ServiceClass::Main,
            Callback::HandshakeComplete { .. } => ServiceClass::Main,
        }
    }

    pub fn method_name(&self) -> (r: &'static str)
        ensures
            r == self.spec_method_name(),
    {
        match self {
            Callback::ClientConnected { .. } => "onClientConnected",
            Callback::ClientDisconnected { .. } => "onClientDisconnected",
            Callback::KeyEvent { .. } => "onKeyEvent",
            Callback::PointerEvent { .. } => "onPointerEvent",
            Callback::CutText { .. } => "onCutText",
            Callback::RfbMessageSent { .. } => "notifyRfbMessageSent",
            Callback::HandshakeComplete { .. } => "notifyHandshakeComplete",
        }
    }

    pub fn signature(&self) -> (r: &'static str)
        ensures
            r == self.spec_signature(),
    {
        match self {
            Callback::ClientConnected { .. } => "(J)V",
            Callback::ClientDisconnected { .. } => "(J)V",
            Callback::KeyEvent { .. } => "(IJJ)V",
            Callback::PointerEvent { .. } => "(IIIJ)V",
            Callback::CutText { .. } => "(Ljava/lang/String;J)V",
            Callback::RfbMessageSent { .. } => "(Ljava/lang/String;Z)V",
            Callback::HandshakeComplete { .. } => "(Ljava/lang/String;Z)V",
        }
    }

    /// Hands over the arguments, in the order of the Java parameters.
    pub fn into_arguments(self) -> (r: Vec<CallbackArg>)
        ensures
            r@ == self.spec_arguments(),
    {
        match self {
            Callback::ClientConnected { client } => vec![CallbackArg::Long(client)],
            Callback::ClientDisconnected { client } => vec![CallbackArg::Long(client)],
            Callback::KeyEvent { down, keysym, client } => vec![
                CallbackArg::Int(down),
                CallbackArg::Long(keysym),
                CallbackArg::Long(client),
            ],
            Callback::PointerEvent { button_mask, x, y, client } => vec![
                CallbackArg::Int(button_mask),
                CallbackArg::Int(x),
                CallbackArg::Int(y),
                CallbackArg::Long(client),
            ],
            Callback::CutText { text, client } => vec![
                CallbackArg::Text(text),
                CallbackArg::Long(client),
            ],
            Callback::RfbMessageSent { request_id, success } => vec![
                CallbackArg::OptionalText(request_id),
                CallbackArg::Bool(success),
            ],
            Callback::HandshakeComplete { request_id, success } => vec![
                CallbackArg::OptionalText(request_id),
                CallbackArg::Bool(success),
            ],
        }
    }
}

/// The callback that reports `event` to Java. Client ids become Java
/// `long`s by keeping their 64 bits; a key's direction becomes `1` (down)
/// or `0` (up).
pub open spec fn event_callback(event: BridgeEvent) -> Callback {
    match event {
        BridgeEvent::ClientConnected { client_id } => Callback::ClientConnected {
            client: wrap_i64(client_id as int) as i64,
        },
        BridgeEvent::ClientDisconnected { client_id } => Callback::ClientDisconnected {
            client: wrap_i64(client_id as int) as i64,
        },
        BridgeEvent::KeyPress { client_id, down, key } => Callback::KeyEvent {
            down: if down { 1 } else { 0 },
            keysym: key as i64,
            client: wrap_i64(client_id as int) as i64,
        },
        BridgeEvent::PointerMove { client_id, x, y, button_mask } => Callback::PointerEvent {
            button_mask: button_mask as i32,
            x: x as i32,
            y: y as i32,
            client: wrap_i64(client_id as int) as i64,
        },
        BridgeEvent::CutText { client_id, text } => Callback::CutText {
            text,
            client: wrap_i64(client_id as int) as i64,
        },
        BridgeEvent::RfbMessageSent { client_id: _, request_id, success } => Callback::RfbMessageSent {
            request_id,
            success,
        },
        BridgeEvent::HandshakeComplete { client_id: _, request_id, success } => Callback::HandshakeComplete {
            request_id,
            success,
        },
    }
}

/// Builds the callback that reports `event` to Java.
pub fn callback_for_event(event: BridgeEvent) -> (r: Callback)
    ensures
        r == event_callback(event),
{
    match event {
        BridgeEvent::ClientConnected { client_id } => Callback::ClientConnected {
            client: java_long(client_id),
        },
        BridgeEvent::ClientDisconnected { client_id } => Callback::ClientDisconnected {
            client: java_long(client_id),
        },
        BridgeEvent::KeyPress { client_id, down, key } => Callback::KeyEvent {
            down: if down { 1 } else { 0 },
            keysym: key as i64,
            client: java_long(client_id),
        },
        BridgeEvent::PointerMove { client_id, x, y, button_mask } => Callback::PointerEvent {
            button_mask: button_mask as i32,
            x: x as i32,
            y: y as i32,
            client: java_long(client_id),
        },
        BridgeEvent::CutText { client_id, text } => Callback::CutText {
            text,
            client: java_long(client_id),
        },
        BridgeEvent::RfbMessageSent { client_id: _, request_id, success } => Callback::RfbMessageSent {
            request_id,
            success,
        },
        BridgeEvent::HandshakeComplete { client_id: _, request_id, success } => Callback::HandshakeComplete {
            request_id,
            success,
        },
    }
}

/// Every callback's JNI signature describes exactly its argument list: a
/// static `void` method whose parameter types follow the arguments in order.
pub proof fn signature_matches_arguments(c: Callback)
    ensures
        c.spec_signature()@ == void_descriptor(c.spec_arguments()),
{
    reveal_strlit("(J)V");
    reveal_strlit("(IJJ)V");
    reveal_strlit("(IIIJ)V");
    reveal_strlit("(Ljava/lang/String;J)V");
    reveal_strlit("(Ljava/lang/String;Z)V");
    let args = c.spec_arguments();
    reveal_with_fuel(args_codes, 5);
    assert(c.spec_signature()@ =~= void_descriptor(args));
}

/// Connection events go to the main service class, input events (keys,
/// pointer, clipboard) to the input service class.
pub proof fn event_targets(event: BridgeEvent)
    ensures
        event_callback(event).spec_class() == (if event is KeyPress || event is PointerMove
            || event is CutText {
            ServiceClass::Input
        } else {
            ServiceClass::Main
        }),
{
}

/// The Java `long` that carries the server id `id`: the id itself when it
/// fits, otherwise the id less 2^64 (the same 64 bits read signed).
pub open spec fn signed_id(id: u64) -> int {
    if id <= 0x7fff_ffff_ffff_ffff {
        id as int
    } else {
        id - 0x1_0000_0000_0000_0000
    }
}

/// Every callback carries the data of its event unchanged: the client id
/// (as a Java `long`), the key and its direction (1 down, 0 up), the
/// pointer position and buttons, the clipboard text, and for the repeater
/// notifications the event's own request id and success flag, which are
/// also the arguments Java receives.
pub proof fn callback_carries_event(event: BridgeEvent)
    ensures
        match event {
            BridgeEvent::ClientConnected { client_id } => event_callback(event) matches Callback::ClientConnected {
                client,
            } && client == signed_id(client_id),
            BridgeEvent::ClientDisconnected { client_id } => event_callback(event) matches Callback::ClientDisconnected {
                client,
            } && client == signed_id(client_id),
            BridgeEvent::KeyPress { client_id, down, key } => event_callback(event) matches Callback::KeyEvent {
                down: d,
                keysym,
                client,
            } && (down ==> d == 1) && (!down ==> d == 0) && keysym == key && client == signed_id(
                client_id,
            ),
            BridgeEvent::PointerMove { client_id, x, y, button_mask } => event_callback(event) matches Callback::PointerEvent {
                button_mask: m,
                x: px,
                y: py,
                client,
            } && m == button_mask && px == x && py == y && client == signed_id(client_id),
            BridgeEvent::CutText { client_id, text } => event_callback(event) matches Callback::CutText {
                text: t,
                client,
            } && t == text && client == signed_id(client_id),
            BridgeEvent::RfbMessageSent { client_id: _, request_id, success } => event_callback(event)
                matches Callback::RfbMessageSent { request_id: r, success: ok } && r == request_id
                && ok == success && event_callback(event).spec_arguments() == seq![
                CallbackArg::OptionalText(request_id),
                CallbackArg::Bool(success),
            ],
            BridgeEvent::HandshakeComplete { client_id: _, request_id, success } => event_callback(event)
                matches Callback::HandshakeComplete { request_id: r, success: ok } && r == request_id
                && ok == success && event_callback(event).spec_arguments() == seq![
                CallbackArg::OptionalText(request_id),
                CallbackArg::Bool(success),
            ],
        },
{
    match event {
        BridgeEvent::ClientConnected { client_id } => {
            assert(wrap_i64(client_id as int) == signed_id(client_id)) by (nonlinear_arith)
                requires
                    0 <= client_id <= 0xffff_ffff_ffff_ffff,
            {}
        },
        BridgeEvent::ClientDisconnected { client_id } => {
            assert(wrap_i64(client_id as int) == signed_id(client_id)) by (nonlinear_arith)
                requires
                    0 <= client_id <= 0xffff_ffff_ffff_ffff,
            {}
        },
        BridgeEvent::KeyPress { client_id, .. } => {
            assert(wrap_i64(client_id as int) == signed_id(client_id)) by (nonlinear_arith)
                requires
                    0 <= client_id <= 0xffff_ffff_ffff_ffff,
            {}
        },
        BridgeEvent::PointerMove { client_id, .. } => {
            assert(wrap_i64(client_id as int) == signed_id(client_id)) by (nonlinear_arith)
                requires
                    0 <= client_id <= 0xffff_ffff_ffff_ffff,
            {}
        },
        BridgeEvent::CutText { client_id, .. } => {
            assert(wrap_i64(client_id as int) == signed_id(client_id)) by (nonlinear_arith)
                requires
                    0 <= client_id <= 0xffff_ffff_ffff_ffff,
            {}
        },
        _ => {},
    }
}

/// Each callback calls the Java method the service class declares for it:
/// `onClientConnected`, `onClientDisconnected`, `notifyRfbMessageSent` and
/// `notifyHandshakeComplete` on the main service, `onKeyEvent`,
/// `onPointerEvent` and `onCutText` on the input service.
pub proof fn callbacks_call_declared_methods(c: Callback)
    ensures
        c is ClientConnected ==> c.spec_method_name()@ == "onClientConnected"@ && c.spec_class()
            == ServiceClass::Main,
        c is ClientDisconnected ==> c.spec_method_name()@ == "onClientDisconnected"@
            && c.spec_class() == ServiceClass::Main,
        c is KeyEvent ==> c.spec_method_name()@ == "onKeyEvent"@ && c.spec_class()
            == ServiceClass::Input,
        c is PointerEvent ==> c.spec_method_name()@ == "onPointerEvent"@ && c.spec_class()
            == ServiceClass::Input,
        c is CutText ==> c.spec_method_name()@ == "onCutText"@ && c.spec_class() == ServiceClass::Input,
        c is RfbMessageSent ==> c.spec_method_name()@ == "notifyRfbMessageSent"@ && c.spec_class()
            == ServiceClass::Main,
        c is HandshakeComplete ==> c.spec_method_name()@ == "notifyHandshakeComplete"@
            && c.spec_class() == ServiceClass::Main,
{
}

} // verus!
