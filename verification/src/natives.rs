//! The native methods the bridge registers with the main service class:
//! their Java names, JNI signatures, and which of them are required.
use vstd::prelude::*;

verus! {

/// A native method the bridge offers to Java.
#[derive(Debug, Clone, Copy, PartialEq, Eq, Structural)]
pub enum NativeEntry {
    Init,
    StartServer,
    StopServer,
    IsActive,
    ConnectRepeater,
    UpdateFramebuffer,
    UpdateFramebufferAndSend,
    UpdateFramebufferCropped,
    NewFramebuffer,
    SendCutText,
    GetFramebufferWidth,
    GetFramebufferHeight,
    ConnectReverse,
    GetRemoteHost,
    GetDestinationPort,
    GetRepeaterId,
    Disconnect,
    ScheduleCopyRect,
    DoCopyRect,
}

/// How many native methods are optional.
pub const OPTIONAL_NATIVE_COUNT: usize = 14;

impl NativeEntry {
    /// The Java name of the method.
    pub open spec fn spec_java_name(self) -> &'static str {
        match self {
            NativeEntry::Init => "vncInit",
            NativeEntry::StartServer => "vncStartServer",
            NativeEntry::StopServer => "vncStopServer",
            NativeEntry::IsActive => "vncIsActive",
            NativeEntry::ConnectRepeater => "vncConnectRepeater",
            NativeEntry::UpdateFramebuffer => "vncUpdateFramebuffer",
            NativeEntry::UpdateFramebufferAndSend => "vncUpdateFramebufferAndSend",
            NativeEntry::UpdateFramebufferCropped => "vncUpdateFramebufferCropped",
            NativeEntry::NewFramebuffer => "vncNewFramebuffer",
            NativeEntry::SendCutText => "vncSendCutText",
            NativeEntry::GetFramebufferWidth => "vncGetFramebufferWidth",
            NativeEntry::GetFramebufferHeight => "vncGetFramebufferHeight",
            NativeEntry::ConnectReverse => "vncConnectReverse",
            NativeEntry::GetRemoteHost => "vncGetRemoteHost",
            NativeEntry::GetDestinationPort => "vncGetDestinationPort",
            NativeEntry::GetRepeaterId => "vncGetRepeaterId",
            NativeEntry::Disconnect => "vncDisconnect",
            NativeEntry::ScheduleCopyRect => "vncScheduleCopyRect",
            NativeEntry::DoCopyRect => "vncDoCopyRect",
        }
    }

    /// The JNI signature of the method.
    pub open spec fn spec_signature(self) -> &'static str {
        match self {
            NativeEntry::Init => "()V",
            NativeEntry::StartServer => "(IIILjava/lang/String;Ljava/lang/String;Ljava/lang/String;)Z",
            NativeEntry::StopServer => "()Z",
            NativeEntry::IsActive => "()Z",
            NativeEntry::ConnectRepeater => "(Ljava/lang/String;ILjava/lang/String;Ljava/lang/String;)J",
            NativeEntry::UpdateFramebuffer => "(Ljava/nio/ByteBuffer;)Z",
            NativeEntry::UpdateFramebufferAndSend => "(Ljava/nio/ByteBuffer;II)Z",
            NativeEntry::UpdateFramebufferCropped => "(Ljava/nio/ByteBuffer;IIIIII)Z",
            NativeEntry::NewFramebuffer => "(II)Z",
            NativeEntry::SendCutText => "(Ljava/lang/String;)V",
            NativeEntry::GetFramebufferWidth => "()I",
            NativeEntry::GetFramebufferHeight => "()I",
            NativeEntry::ConnectReverse => "(Ljava/lang/String;I)J",
            NativeEntry::GetRemoteHost => "(J)Ljava/lang/String;",
            NativeEntry::GetDestinationPort => "(J)I",
            NativeEntry::GetRepeaterId => "(J)Ljava/lang/String;",
            NativeEntry::Disconnect => "(J)Z",
            NativeEntry::ScheduleCopyRect => "(IIIIII)V",
            NativeEntry::DoCopyRect => "(IIIIII)Z",
        }
    }

    /// Whether registration fails when the Java class lacks the method.
    pub open spec fn spec_required(self) -> bool {
        match self {
            NativeEntry::Init => true,
            NativeEntry::StartServer => true,
            NativeEntry::StopServer => true,
            NativeEntry::IsActive => true,
            NativeEntry::ConnectRepeater => true,
            _ => false,
        }
    }

    pub fn java_name(&self) -> (r: &'static str)
        ensures
            r == self.spec_java_name(),
    {
        match self {
            NativeEntry::Init => "vncInit",
            NativeEntry::StartServer => "vncStartServer",
            NativeEntry::StopServer => "vncStopServer",
            NativeEntry::IsActive => "vncIsActive",
            NativeEntry::ConnectRepeater => "vncConnectRepeater",
            NativeEntry::UpdateFramebuffer => "vncUpdateFramebuffer",
            NativeEntry::UpdateFramebufferAndSend => "vncUpdateFramebufferAndSend",
            NativeEntry::UpdateFramebufferCropped => "vncUpdateFramebufferCropped",
            NativeEntry::NewFramebuffer => "vncNewFramebuffer",
            NativeEntry::SendCutText => "vncSendCutText",
            NativeEntry::GetFramebufferWidth => "vncGetFramebufferWidth",
            NativeEntry::GetFramebufferHeight => "vncGetFramebufferHeight",
            NativeEntry::ConnectReverse => "vncConnectReverse",
            NativeEntry::GetRemoteHost => "vncGetRemoteHost",
            NativeEntry::GetDestinationPort => "vncGetDestinationPort",
            NativeEntry::GetRepeaterId => "vncGetRepeaterId",
            NativeEntry::Disconnect => "vncDisconnect",
            NativeEntry::ScheduleCopyRect => "vncScheduleCopyRect",
            NativeEntry::DoCopyRect => "vncDoCopyRect",
        }
    }

    pub fn signature(&self) -> (r: &'static str)
        ensures
            r == self.spec_signature(),
    {
        match self {
            NativeEntry::Init => "()V",
            NativeEntry::StartServer => "(IIILjava/lang/String;Ljava/lang/String;Ljava/lang/String;)Z",
            NativeEntry::StopServer => "()Z",
            NativeEntry::IsActive => "()Z",
            NativeEntry::ConnectRepeater => "(Ljava/lang/String;ILjava/lang/String;Ljava/lang/String;)J",
            NativeEntry::UpdateFramebuffer => "(Ljava/nio/ByteBuffer;)Z",
            NativeEntry::UpdateFramebufferAndSend => "(Ljava/nio/ByteBuffer;II)Z",
            NativeEntry::UpdateFramebufferCropped => "(Ljava/nio/ByteBuffer;IIIIII)Z",
            NativeEntry::NewFramebuffer => "(II)Z",
            NativeEntry::SendCutText => "(Ljava/lang/String;)V",
            NativeEntry::GetFramebufferWidth => "()I",
            NativeEntry::GetFramebufferHeight => "()I",
            NativeEntry::ConnectReverse => "(Ljava/lang/String;I)J",
            NativeEntry::GetRemoteHost => "(J)Ljava/lang/String;",
            NativeEntry::GetDestinationPort => "(J)I",
            NativeEntry::GetRepeaterId => "(J)Ljava/lang/String;",
            NativeEntry::Disconnect => "(J)Z",
            NativeEntry::ScheduleCopyRect => "(IIIIII)V",
            NativeEntry::DoCopyRect => "(IIIIII)Z",
        }
    }

    pub fn is_required(&self) -> (r: bool)
        ensures
            r == self.spec_required(),
    {
        match self {
            NativeEntry::Init => true,
            NativeEntry::StartServer => true,
            NativeEntry::StopServer => true,
            NativeEntry::IsActive => true,
            NativeEntry::ConnectRepeater => true,
            _ => false,
        }
    }
}

/// The methods registered together; registration fails if any is missing.
pub open spec fn spec_required_natives() -> Seq<NativeEntry> {
    seq![
        NativeEntry::Init,
        NativeEntry::StartServer,
        NativeEntry::StopServer,
        NativeEntry::IsActive,
        NativeEntry::ConnectRepeater,
    ]
}

/// The methods registered one by one; a missing one is skipped.
pub open spec fn spec_optional_natives() -> Seq<NativeEntry> {
    seq![
        NativeEntry::UpdateFramebuffer,
        NativeEntry::UpdateFramebufferAndSend,
        NativeEntry::UpdateFramebufferCropped,
        NativeEntry::NewFramebuffer,
        NativeEntry::SendCutText,
        NativeEntry::GetFramebufferWidth,
        NativeEntry::GetFramebufferHeight,
        NativeEntry::ConnectReverse,
        NativeEntry::GetRemoteHost,
        NativeEntry::GetDestinationPort,
        NativeEntry::GetRepeaterId,
        NativeEntry::Disconnect,
        NativeEntry::ScheduleCopyRect,
        NativeEntry::DoCopyRect,
    ]
}

pub fn required_natives() -> (r: Vec<NativeEntry>)
    ensures
        r@ == spec_required_natives(),
{
    let r = vec![
        NativeEntry::Init,
        NativeEntry::StartServer,
        NativeEntry::StopServer,
        NativeEntry::IsActive,
        NativeEntry::ConnectRepeater,
    ];
    assert(r@ =~= spec_required_natives());
    r
}

pub fn optional_natives() -> (r: Vec<NativeEntry>)
    ensures
        r@ == spec_optional_natives(),
{
    let r = vec![
        NativeEntry::UpdateFramebuffer,
        NativeEntry::UpdateFramebufferAndSend,
        NativeEntry::UpdateFramebufferCropped,
        NativeEntry::NewFramebuffer,
        NativeEntry::SendCutText,
        NativeEntry::GetFramebufferWidth,
        NativeEntry::GetFramebufferHeight,
        NativeEntry::ConnectReverse,
        NativeEntry::GetRemoteHost,
        NativeEntry::GetDestinationPort,
        NativeEntry::GetRepeaterId,
        NativeEntry::Disconnect,
        NativeEntry::ScheduleCopyRect,
        NativeEntry::DoCopyRect,
    ];
    assert(r@ =~= spec_optional_natives());
    r
}

/// Each native method is registered exactly once: the required ones in the
/// joint registration, every other one on its own.
pub proof fn natives_partitioned(e: NativeEntry)
    ensures
        spec_required_natives().contains(e) == e.spec_required(),
        spec_optional_natives().contains(e) == !e.spec_required(),
        spec_required_natives().no_duplicates(),
        spec_optional_natives().no_duplicates(),
{
    let req = spec_required_natives();
    let opt = spec_optional_natives();
    assert(req.len() == 5);
    assert(opt.len() == 14);
    match e {
        NativeEntry::Init => assert(req[0] == e),
        NativeEntry::StartServer => assert(req[1] == e),
        NativeEntry::StopServer => assert(req[2] == e),
        NativeEntry::IsActive => assert(req[3] == e),
        NativeEntry::ConnectRepeater => assert(req[4] == e),
        NativeEntry::UpdateFramebuffer => assert(opt[0] == e),
        NativeEntry::UpdateFramebufferAndSend => assert(opt[1] == e),
        NativeEntry::UpdateFramebufferCropped => assert(opt[2] == e),
        NativeEntry::NewFramebuffer => assert(opt[3] == e),
        NativeEntry::SendCutText => assert(opt[4] == e),
        NativeEntry::GetFramebufferWidth => assert(opt[5] == e),
        NativeEntry::GetFramebufferHeight => assert(opt[6] == e),
        NativeEntry::ConnectReverse => assert(opt[7] == e),
        NativeEntry::GetRemoteHost => assert(opt[8] == e),
        NativeEntry::GetDestinationPort => assert(opt[9] == e),
        NativeEntry::GetRepeaterId => assert(opt[10] == e),
        NativeEntry::Disconnect => assert(opt[11] == e),
        NativeEntry::ScheduleCopyRect => assert(opt[12] == e),
        NativeEntry::DoCopyRect => assert(opt[13] == e),
    }
    assert forall|i: int| 0 <= i < req.len() implies #[trigger] req[i].spec_required() by {}
    assert forall|i: int| 0 <= i < opt.len() implies !(#[trigger] opt[i]).spec_required() by {}
}

/// A Java type as it appears in a native method's declaration.
pub enum JavaType {
    Void,
    Boolean,
    Int,
    Long,
    Text,
    ByteBuffer,
}

/// The JNI type code of a Java type.
pub open spec fn java_type_code(t: JavaType) -> Seq<char> {
    match t {
        JavaType::Void => seq!['V'],
        JavaType::Boolean => seq!['Z'],
        JavaType::Int => seq!['I'],
        JavaType::Long => seq!['J'],
        JavaType::Text => seq!['L', 'j', 'a', 'v', 'a', '/', 'l', 'a', 'n', 'g', '/', 'S', 't', 'r', 'i', 'n', 'g', ';'],
        JavaType::ByteBuffer => seq!['L', 'j', 'a', 'v', 'a', '/', 'n', 'i', 'o', '/', 'B', 'y', 't', 'e', 'B', 'u', 'f', 'f', 'e', 'r', ';'],
    }
}

/// The type codes of a parameter list, in order.
pub open spec fn param_codes(params: Seq<JavaType>) -> Seq<char>
    decreases params.len(),
{
    if params.len() == 0 {
        Seq::empty()
    } else {
        java_type_code(params[0]) + param_codes(params.drop_first())
    }
}

/// The JNI descriptor of a method with these parameters and return type.
pub open spec fn method_descriptor(params: Seq<JavaType>, return_type: JavaType) -> Seq<char> {
    seq!['('] + param_codes(params) + seq![')'] + java_type_code(return_type)
}

/// A `static native` method as the Java service class declares it.
pub struct JavaDeclaration {
    pub name: Seq<char>,
    pub params: Seq<JavaType>,
    pub return_type: JavaType,
}

/// The Java declaration that each native entry binds, e.g.
/// `boolean vncStopServer()` or `long vncConnectReverse(String host, int port)`.
pub open spec fn java_declaration(e: NativeEntry) -> JavaDeclaration {
    match e {
            NativeEntry::Init => JavaDeclaration {
                name: "vncInit"@,
                params: Seq::empty(),
                return_type: JavaType::Void,
            },
            NativeEntry::StartServer => JavaDeclaration {
                name: "vncStartServer"@,
                params: seq![JavaType::Int, JavaType::Int, JavaType::Int, JavaType::Text, JavaType::Text, JavaType::Text],
                return_type: JavaType::Boolean,
            },
            NativeEntry::StopServer => JavaDeclaration {
                name: "vncStopServer"@,
                params: Seq::empty(),
                return_type: JavaType::Boolean,
            },
            NativeEntry::IsActive => JavaDeclaration {
                name: "vncIsActive"@,
                params: Seq::empty(),
                return_type: JavaType::Boolean,
            },
            NativeEntry::ConnectRepeater => JavaDeclaration {
                name: "vncConnectRepeater"@,
                params: seq![JavaType::Text, JavaType::Int, JavaType::Text, JavaType::Text],
                return_type: JavaType::Long,
            },
            NativeEntry::UpdateFramebuffer => JavaDeclaration {
                name: "vncUpdateFramebuffer"@,
                params: seq![JavaType::ByteBuffer],
                return_type: JavaType::Boolean,
            },
            NativeEntry::UpdateFramebufferAndSend => JavaDeclaration {
                name: "vncUpdateFramebufferAndSend"@,
                params: seq![JavaType::ByteBuffer, JavaType::Int, JavaType::Int],
                return_type: JavaType::Boolean,
            },
            NativeEntry::UpdateFramebufferCropped => JavaDeclaration {
                name: "vncUpdateFramebufferCropped"@,
                params: seq![JavaType::ByteBuffer, JavaType::Int, JavaType::Int, JavaType::Int, JavaType::Int, JavaType::Int, JavaType::Int],
                return_type: JavaType::Boolean,
            },
            NativeEntry::NewFramebuffer => JavaDeclaration {
                name: "vncNewFramebuffer"@,
                params: seq![JavaType::Int, JavaType::Int],
                return_type: JavaType::Boolean,
            },
            NativeEntry::SendCutText => JavaDeclaration {
                name: "vncSendCutText"@,
                params: seq![JavaType::Text],
                return_type: JavaType::Void,
            },
            NativeEntry::GetFramebufferWidth => JavaDeclaration {
                name: "vncGetFramebufferWidth"@,
                params: Seq::empty(),
                return_type: JavaType::Int,
            },
            NativeEntry::GetFramebufferHeight => JavaDeclaration {
                name: "vncGetFramebufferHeight"@,
                params: Seq::empty(),
                return_type: JavaType::Int,
            },
            NativeEntry::ConnectReverse => JavaDeclaration {
                name: "vncConnectReverse"@,
                params: seq![JavaType::Text, JavaType::Int],
                return_type: JavaType::Long,
            },
            NativeEntry::GetRemoteHost => JavaDeclaration {
                name: "vncGetRemoteHost"@,
                params: seq![JavaType::Long],
                return_type: JavaType::Text,
            },
            NativeEntry::GetDestinationPort => JavaDeclaration {
                name: "vncGetDestinationPort"@,
                params: seq![JavaType::Long],
                return_type: JavaType::Int,
            },
            NativeEntry::GetRepeaterId => JavaDeclaration {
                name: "vncGetRepeaterId"@,
                params: seq![JavaType::Long],
                return_type: JavaType::Text,
            },
            NativeEntry::Disconnect => JavaDeclaration {
                name: "vncDisconnect"@,
                params: seq![JavaType::Long],
                return_type: JavaType::Boolean,
            },
            NativeEntry::ScheduleCopyRect => JavaDeclaration {
                name: "vncScheduleCopyRect"@,
                params: seq![JavaType::Int, JavaType::Int, JavaType::Int, JavaType::Int, JavaType::Int, JavaType::Int],
                return_type: JavaType::Void,
            },
            NativeEntry::DoCopyRect => JavaDeclaration {
                name: "vncDoCopyRect"@,
                params: seq![JavaType::Int, JavaType::Int, JavaType::Int, JavaType::Int, JavaType::Int, JavaType::Int],
                return_type: JavaType::Boolean,
            },
    }
}

/// Each native entry binds the Java method it is declared for: its name is
/// the declared name, and its JNI signature is the descriptor of the
/// declared parameter and return types (so a `boolean` method's signature
/// ends in `Z`, a `void` one's in `V`).
#[verifier::rlimit(40)]
pub proof fn natives_match_java_declarations(e: NativeEntry)
    ensures
        e.spec_java_name()@ == java_declaration(e).name,
        e.spec_signature()@ == method_descriptor(java_declaration(e).params, java_declaration(e).return_type),
{
    match e {
        NativeEntry::Init => {
            reveal_strlit("()V");
            reveal_with_fuel(param_codes, 1);
            let d = java_declaration(e);
            assert(e.spec_signature()@ =~= method_descriptor(d.params, d.return_type));
        },
        NativeEntry::StartServer => {
            reveal_strlit("(IIILjava/lang/String;Ljava/lang/String;Ljava/lang/String;)Z");
            reveal_with_fuel(param_codes, 7);
            let d = java_declaration(e);
            assert(e.spec_signature()@ =~= method_descriptor(d.params, d.return_type));
        },
        NativeEntry::StopServer => {
            reveal_strlit("()Z");
            reveal_with_fuel(param_codes, 1);
            let d = java_declaration(e);
            assert(e.spec_signature()@ =~= method_descriptor(d.params, d.return_type));
        },
        NativeEntry::IsActive => {
            reveal_strlit("()Z");
            reveal_with_fuel(param_codes, 1);
            let d = java_declaration(e);
            assert(e.spec_signature()@ =~= method_descriptor(d.params, d.return_type));
        },
        NativeEntry::ConnectRepeater => {
            reveal_strlit("(Ljava/lang/String;ILjava/lang/String;Ljava/lang/String;)J");
            reveal_with_fuel(param_codes, 5);
            let d = java_declaration(e);
            assert(e.spec_signature()@ =~= method_descriptor(d.params, d.return_type));
        },
        NativeEntry::UpdateFramebuffer => {
            reveal_strlit("(Ljava/nio/ByteBuffer;)Z");
            reveal_with_fuel(param_codes, 2);
            let d = java_declaration(e);
            assert(e.spec_signature()@ =~= method_descriptor(d.params, d.return_type));
        },
        NativeEntry::UpdateFramebufferAndSend => {
            reveal_strlit("(Ljava/nio/ByteBuffer;II)Z");
            reveal_with_fuel(param_codes, 4);
            let d = java_declaration(e);
            assert(e.spec_signature()@ =~= method_descriptor(d.params, d.return_type));
        },
        NativeEntry::UpdateFramebufferCropped => {
            reveal_strlit("(Ljava/nio/ByteBuffer;IIIIII)Z");
            reveal_with_fuel(param_codes, 8);
            let d = java_declaration(e);
            assert(e.spec_signature()@ =~= method_descriptor(d.params, d.return_type));
        },
        NativeEntry::NewFramebuffer => {
            reveal_strlit("(II)Z");
            reveal_with_fuel(param_codes, 3);
            let d = java_declaration(e);
            assert(e.spec_signature()@ =~= method_descriptor(d.params, d.return_type));
        },
        NativeEntry::SendCutText => {
            reveal_strlit("(Ljava/lang/String;)V");
            reveal_with_fuel(param_codes, 2);
            let d = java_declaration(e);
            assert(e.spec_signature()@ =~= method_descriptor(d.params, d.return_type));
        },
        NativeEntry::GetFramebufferWidth => {
            reveal_strlit("()I");
            reveal_with_fuel(param_codes, 1);
            let d = java_declaration(e);
            assert(e.spec_signature()@ =~= method_descriptor(d.params, d.return_type));
        },
        NativeEntry::GetFramebufferHeight => {
            reveal_strlit("()I");
            reveal_with_fuel(param_codes, 1);
            let d = java_declaration(e);
            assert(e.spec_signature()@ =~= method_descriptor(d.params, d.return_type));
        },
        NativeEntry::ConnectReverse => {
            reveal_strlit("(Ljava/lang/String;I)J");
            reveal_with_fuel(param_codes, 3);
            let d = java_declaration(e);
            assert(e.spec_signature()@ =~= method_descriptor(d.params, d.return_type));
        },
        NativeEntry::GetRemoteHost => {
            reveal_strlit("(J)Ljava/lang/String;");
            reveal_with_fuel(param_codes, 2);
            let d = java_declaration(e);
            assert(e.spec_signature()@ =~= method_descriptor(d.params, d.return_type));
        },
        NativeEntry::GetDestinationPort => {
            reveal_strlit("(J)I");
            reveal_with_fuel(param_codes, 2);
            let d = java_declaration(e);
            assert(e.spec_signature()@ =~= method_descriptor(d.params, d.return_type));
        },
        NativeEntry::GetRepeaterId => {
            reveal_strlit("(J)Ljava/lang/String;");
            reveal_with_fuel(param_codes, 2);
            let d = java_declaration(e);
            assert(e.spec_signature()@ =~= method_descriptor(d.params, d.return_type));
        },
        NativeEntry::Disconnect => {
            reveal_strlit("(J)Z");
            reveal_with_fuel(param_codes, 2);
            let d = java_declaration(e);
            assert(e.spec_signature()@ =~= method_descriptor(d.params, d.return_type));
        },
        NativeEntry::ScheduleCopyRect => {
            reveal_strlit("(IIIIII)V");
            reveal_with_fuel(param_codes, 7);
            let d = java_declaration(e);
            assert(e.spec_signature()@ =~= method_descriptor(d.params, d.return_type));
        },
        NativeEntry::DoCopyRect => {
            reveal_strlit("(IIIIII)Z");
            reveal_with_fuel(param_codes, 7);
            let d = java_declaration(e);
            assert(e.spec_signature()@ =~= method_descriptor(d.params, d.return_type));
        },
    }
}

} // verus!
