//! The command classifier: one closed handle type for everything that
//! crosses the bridge, so channels and queues can be declared over a single
//! type while downstream code branches on a kind discriminant.

use vstd::prelude::*;

use crate::codec::Msg;
use crate::error::{BridgeError, ErrView};

verus! {

/// A collaborator-defined payload carried behind the internal and
/// uncatalogued kinds: an identifying tag for the checked downcast back to
/// the concrete type, and the payload's display text.
#[derive(Debug)]
pub struct Payload {
    pub id: u64,
    pub text: String,
}

/// The mathematical image of a [`Payload`].
pub struct PayloadView {
    pub id: u64,
    pub text: Seq<char>,
}

impl View for Payload {
    type V = PayloadView;

    open spec fn view(&self) -> PayloadView {
        PayloadView { id: self.id, text: self.text@ }
    }
}

impl Clone for Payload {
    fn clone(&self) -> (r: Payload)
        ensures
            r@ == self@,
    {
        Payload { id: self.id, text: self.text.clone() }
    }
}

/// An application-defined command object that can travel through the bridge
/// behind the opaque payload kinds. The tag identifies the concrete type so
/// a consumer can perform a checked downcast; the text is its display form.
pub trait CmdObj {
    /// The tag that identifies the object's concrete type.
    spec fn obj_id(&self) -> u64;

    /// The object's display text.
    spec fn obj_text(&self) -> Seq<char>;

    fn payload_id(&self) -> (r: u64)
        ensures
            r == self.obj_id(),
    ;

    fn payload_text(&self) -> (r: String)
        ensures
            r@ == self.obj_text(),
    ;
}

impl CmdObj for Payload {
    open spec fn obj_id(&self) -> u64 {
        self.id
    }

    open spec fn obj_text(&self) -> Seq<char> {
        self.text@
    }

    fn payload_id(&self) -> (r: u64) {
        self.id
    }

    fn payload_text(&self) -> (r: String) {
        self.text.clone()
    }
}

/// The kind discriminant over the closed set of command variants.
#[derive(Clone, Copy, PartialEq, Eq, Structural, Debug)]
pub enum CommandKind {
    ProtocolMessage,
    InternalCommand,
    Uncatalogued,
    Error,
}

/// One value crossing the bridge: a decoded protocol message, a failure with
/// its direction context, or an opaque collaborator payload, either
/// catalogued as an internal command or not.
#[derive(Debug)]
pub enum Command {
    ProtocolMessage(Msg),
    Error(BridgeError),
    InternalCommand(Payload),
    Uncatalogued(Payload),
}

/// The mathematical image of a [`Command`].
pub enum CmdView {
    Protocol(Seq<char>),
    Failure(ErrView),
    Internal(PayloadView),
    Uncatalogued(PayloadView),
}

impl View for Command {
    type V = CmdView;

    open spec fn view(&self) -> CmdView {
        match self {
            Command::ProtocolMessage(m) => CmdView::Protocol(m@),
            Command::Error(e) => CmdView::Failure(e@),
            Command::InternalCommand(p) => CmdView::Internal(p@),
            Command::Uncatalogued(p) => CmdView::Uncatalogued(p@),
        }
    }
}

impl Clone for Command {
    fn clone(&self) -> (r: Command)
        ensures
            r@ == self@,
    {
        match self {
            Command::ProtocolMessage(m) => Command::ProtocolMessage(m.clone()),
            Command::Error(e) => Command::Error(e.clone()),
            Command::InternalCommand(p) => Command::InternalCommand(p.clone()),
            Command::Uncatalogued(p) => Command::Uncatalogued(p.clone()),
        }
    }
}

/// The classification that the inbound pump applies to one fallible decode
/// result: a message becomes a protocol command, a failure an error command.
pub open spec fn classified(r: Result<Msg, BridgeError>) -> CmdView {
    match r {
        Ok(m) => CmdView::Protocol(m@),
        Err(e) => CmdView::Failure(e@),
    }
}

impl Command {
    /// Wraps an opaque collaborator object as an internal command.
    pub fn new_internal_cmd<C: CmdObj>(c: &C) -> (r: Command)
        ensures
            r@ == CmdView::Internal(PayloadView { id: c.obj_id(), text: c.obj_text() }),
    {
        Command::InternalCommand(Payload { id: c.payload_id(), text: c.payload_text() })
    }

    /// Wraps an opaque collaborator object as an uncatalogued command.
    pub fn new_uncatalogued<C: CmdObj>(c: &C) -> (r: Command)
        ensures
            r@ == CmdView::Uncatalogued(PayloadView { id: c.obj_id(), text: c.obj_text() }),
    {
        Command::Uncatalogued(Payload { id: c.payload_id(), text: c.payload_text() })
    }

    /// Wraps a decoded protocol message.
    pub fn from_msg(m: Msg) -> (r: Command)
        ensures
            r@ == CmdView::Protocol(m@),
    {
        Command::ProtocolMessage(m)
    }

    /// Wraps a failure.
    pub fn from_error(e: BridgeError) -> (r: Command)
        ensures
            r@ == CmdView::Failure(e@),
    {
        Command::Error(e)
    }

    /// Classifies one fallible decode result, as the pump that pipes a
    /// fallible channel into a command stream does for every item.
    pub fn from_result(r: Result<Msg, BridgeError>) -> (c: Command)
        ensures
            c@ == classified(r),
    {
        match r {
            Ok(m) => Command::ProtocolMessage(m),
            Err(e) => Command::Error(e),
        }
    }

    /// The kind discriminant of this command.
    pub fn kind(&self) -> (k: CommandKind)
        ensures
            k == CommandKind::ProtocolMessage <==> self is ProtocolMessage,
            k == CommandKind::Error <==> self is Error,
            k == CommandKind::InternalCommand <==> self is InternalCommand,
            k == CommandKind::Uncatalogued <==> self is Uncatalogued,
    {
        match self {
            Command::ProtocolMessage(_) => CommandKind::ProtocolMessage,
            Command::Error(_) => CommandKind::Error,
            Command::InternalCommand(_) => CommandKind::InternalCommand,
            Command::Uncatalogued(_) => CommandKind::Uncatalogued,
        }
    }

    /// The checked downcast to the protocol-message payload.
    pub fn protocol_message(&self) -> (r: Option<&Msg>)
        ensures
            r is Some <==> self is ProtocolMessage,
            r matches Some(m) ==> self@ == CmdView::Protocol(m@),
    {
        match self {
            Command::ProtocolMessage(m) => Some(m),
            _ => None,
        }
    }

    /// The checked downcast to the failure payload.
    pub fn error(&self) -> (r: Option<&BridgeError>)
        ensures
            r is Some <==> self is Error,
            r matches Some(e) ==> self@ == CmdView::Failure(e@),
    {
        match self {
            Command::Error(e) => Some(e),
            _ => None,
        }
    }

    /// The checked downcast to the opaque payload of the internal and
    /// uncatalogued kinds.
    pub fn payload(&self) -> (r: Option<&Payload>)
        ensures
            r is Some <==> (self is InternalCommand || self is Uncatalogued),
            r matches Some(p) ==> (self@ == CmdView::Internal(p@) || self@ == CmdView::Uncatalogued(
                p@,
            )),
    {
        match self {
            Command::InternalCommand(p) => Some(p),
            Command::Uncatalogued(p) => Some(p),
            _ => None,
        }
    }

    /// The display text of the command: the message's canonical text, the
    /// failure's cause, or the payload's display form.
    pub fn to_text(&self) -> (t: String)
        ensures
            t@ == cmd_text(self@),
    {
        match self {
            Command::ProtocolMessage(m) => m.text().clone(),
            Command::Error(e) => e.detail.clone(),
            Command::InternalCommand(p) => p.text.clone(),
            Command::Uncatalogued(p) => p.text.clone(),
        }
    }
}

/// The display text of a command view.
pub open spec fn cmd_text(v: CmdView) -> Seq<char> {
    match v {
        CmdView::Protocol(t) => t,
        CmdView::Failure(e) => e.detail,
        CmdView::Internal(p) => p.text,
        CmdView::Uncatalogued(p) => p.text,
    }
}

} // verus!
