//! The normalized event model and the validated client-message builder.
use vstd::prelude::*;
use vstd::slice::slice_to_vec;
use crate::bindings::{KeyCode, MouseEvent};
use crate::data_types::{Point, Region};
use crate::xconnection::{Atom, XAtomQuerier, XError, Xid, resolution_failed};

verus! {

/// Number of unsigned 32-bit data words in every client message: the wire
/// contract of the client-message format.
pub const CLIENT_MESSAGE_WORDS: usize = 5;

/// Wrapper around the low level X event types that correspond to request /
/// response data when communicating with the X server itself.
///
/// A backend translator produces exactly one of these per raw event it does
/// not drop; instances are plain values with no mutation after construction.
#[derive(Debug, Clone, PartialEq, Eq, Hash)]
pub enum XEvent {
    /// A message has been sent to a particular client
    ClientMessage(ClientMessage),
    /// Client config has changed in some way
    ConfigureNotify(ConfigureEvent),
    /// A client is requesting to be repositioned
    ConfigureRequest(ConfigureEvent),
    /// The mouse pointer has entered a new client window
    Enter(PointerChange),
    /// A part or all of a client has become visible
    Expose(ExposeEvent),
    /// A client window has been closed
    Destroy(Xid),
    /// A grabbed key combination has been entered by the user
    KeyPress(KeyCode),
    /// The mouse pointer has left the current client window
    Leave(PointerChange),
    /// A client window is requesting to be positioned and rendered on the
    /// screen; the flag says whether the window should be managed
    MapRequest(Xid, bool),
    /// The mouse has moved or a mouse button has been pressed
    MouseEvent(MouseEvent),
    /// A client property has changed in some way
    PropertyNotify(PropertyEvent),
    /// A randr action has occurred (new outputs, resolution change etc)
    RandrNotify,
    /// Focus has moved to a different screen
    ScreenChange,
}

/// Event masks used when sending client events.
#[derive(Debug, Clone, Copy, PartialEq, Eq, Hash)]
pub enum ClientEventMask {
    /// Substructure Notify: propagate to window hierarchy listeners
    SubstructureNotify,
    /// No Mask: all clients should accept
    NoEventMask,
}

/// Holds when a payload has exactly the fixed number of data words that the
/// client-message wire format requires.
pub open spec fn valid_message_data(data: Seq<u32>) -> bool {
    data.len() == CLIENT_MESSAGE_WORDS
}

/// A client message that needs to be parsed and handled based on its type.
///
/// Invariant: the payload always holds exactly [`CLIENT_MESSAGE_WORDS`]
/// words. Both constructors establish it, and the payload is never mutated,
/// so it holds of every value that leaves this module.
#[derive(Debug, Clone, PartialEq, Eq, Hash)]
pub struct ClientMessage {
    /// The ID of the window the message is addressed to
    pub id: Xid,
    /// The mask to use when sending the event
    pub mask: ClientEventMask,
    /// The data type being set
    pub dtype: String,
    data: Vec<u32>,
}

/// The mathematical value of a [`ClientMessage`]: its fields with the
/// strings and the payload abstracted to sequences.
pub struct ClientMessageView {
    /// The ID of the window the message is addressed to
    pub id: Xid,
    /// The mask to use when sending the event
    pub mask: ClientEventMask,
    /// The characters of the data type being set
    pub dtype: Seq<char>,
    /// The words of the payload
    pub data: Seq<u32>,
}

impl View for ClientMessage {
    type V = ClientMessageView;

    closed spec fn view(&self) -> ClientMessageView {
        ClientMessageView {
            id: self.id,
            mask: self.mask,
            dtype: self.dtype@,
            data: self.data@,
        }
    }
}

impl ClientMessage {
    /// The payload holds exactly the fixed number of words.
    pub open spec fn wf(&self) -> bool {
        valid_message_data(self@.data)
    }

    /// The raw data being sent in this message.
    pub fn data(&self) -> (r: &[u32])
        ensures
            r@ == self@.data,
    {
        self.data.as_slice()
    }

    /// Try to build a new ClientMessage. Fails, with the offending length,
    /// if the payload is not exactly [`CLIENT_MESSAGE_WORDS`] words.
    pub fn try_from_data(id: Xid, mask: ClientEventMask, dtype: &str, data: &[u32]) -> (r: Result<ClientMessage, XError>)
        ensures
            valid_message_data(data@) ==> (r matches Ok(m)
                && m@.id == id
                && m@.mask == mask
                && m@.dtype == dtype@
                && m@.data == data@
                && m.wf()),
            !valid_message_data(data@) ==> r == Err::<ClientMessage, XError>(
                XError::InvalidClientMessageData(data@.len() as usize),
            ),
    {
        if data.len() != CLIENT_MESSAGE_WORDS {
            return Err(XError::InvalidClientMessageData(data.len()));
        }

        Ok(Self::from_data_unchecked(id, mask, dtype, data))
    }

    /// Unchecked constructor for builder paths that guarantee the fixed
    /// word count by construction; never reachable from outside this crate,
    /// which keeps the payload invariant global.
    pub(crate) fn from_data_unchecked(id: Xid, mask: ClientEventMask, dtype: &str, data: &[u32]) -> (r: ClientMessage)
        requires
            valid_message_data(data@),
        ensures
            r@.id == id,
            r@.mask == mask,
            r@.dtype == dtype@,
            r@.data == data@,
            r.wf(),
    {
        ClientMessage {
            id,
            mask,
            dtype: dtype.to_owned(),
            data: slice_to_vec(data),
        }
    }
}

/// The XEmbed protocol revision this layer implements; sent as the last
/// data word of every XEmbed notification.
pub const XEMBED_PROTOCOL_VERSION: u32 = 0;

/// XEmbed opcode: a window is being embedded.
pub const XEMBED_NOTIFY: u32 = 0;

/// XEmbed opcode: an embedded window is now active.
pub const XEMBED_WINDOW_ACTIVATE: u32 = 1;

/// XEmbed opcode: an embedded window has gained focus.
pub const XEMBED_FOCUS_IN: u32 = 4;

/// XEmbed opcode: an embedded window has been blocked by a modal dialog.
pub const XEMBED_MODALITY_ON: u32 = 10;

/// Known common client message formats: the semantic request ("tell this
/// client to close") that gets lowered into a concrete [`ClientMessage`]
/// via atom resolution. It never touches the wire directly.
#[derive(Clone, Copy, Debug, PartialEq, Eq, Hash)]
pub enum ClientMessageKind {
    /// Inform a client that it is being closed
    DeleteWindow(Xid),
    /// Request that a client take input focus
    TakeFocus(Xid),
    /// Take ownership of the systray
    ///
    /// Args are the id of the root window and id of the window being used
    /// as a systray
    TakeSystrayOwnership(Xid, Xid),
    /// Inform an embedded window that it has gained focus
    XEmbedFocusIn(Xid, Xid),
    /// Inform an embedded window that it has been blocked by a modal dialog
    XEmbedModalityOn(Xid, Xid),
    /// Inform a window that it is being embedded
    XEmbedNotify(Xid, Xid),
    /// Inform an embedded window that it is now active
    XEmbedWindowActivate(Xid, Xid),
}

impl ClientMessageKind {
    /// Does this kind carry the four XEmbed notifications' layout?
    pub open spec fn is_xembed(self) -> bool {
        match self {
            ClientMessageKind::XEmbedFocusIn(_, _) => true,
            ClientMessageKind::XEmbedModalityOn(_, _) => true,
            ClientMessageKind::XEmbedNotify(_, _) => true,
            ClientMessageKind::XEmbedWindowActivate(_, _) => true,
            _ => false,
        }
    }

    /// The XEmbed opcode that distinguishes the four sub-messages.
    pub open spec fn xembed_opcode(self) -> u32 {
        match self {
            ClientMessageKind::XEmbedFocusIn(_, _) => XEMBED_FOCUS_IN,
            ClientMessageKind::XEmbedModalityOn(_, _) => XEMBED_MODALITY_ON,
            ClientMessageKind::XEmbedNotify(_, _) => XEMBED_NOTIFY,
            ClientMessageKind::XEmbedWindowActivate(_, _) => XEMBED_WINDOW_ACTIVATE,
            _ => 0,
        }
    }

    /// The window the built message is addressed to.
    pub open spec fn target(self) -> Xid {
        match self {
            ClientMessageKind::DeleteWindow(id) => id,
            ClientMessageKind::TakeFocus(id) => id,
            ClientMessageKind::TakeSystrayOwnership(root_id, _) => root_id,
            ClientMessageKind::XEmbedFocusIn(id, _) => id,
            ClientMessageKind::XEmbedModalityOn(id, _) => id,
            ClientMessageKind::XEmbedNotify(id, _) => id,
            ClientMessageKind::XEmbedWindowActivate(id, _) => id,
        }
    }

    /// The event mask attached to the built message. Window-manager
    /// protocol messages must be acceptable to every client; the others
    /// must propagate to window hierarchy listeners.
    pub open spec fn mask(self) -> ClientEventMask {
        match self {
            ClientMessageKind::DeleteWindow(_) => ClientEventMask::NoEventMask,
            ClientMessageKind::TakeFocus(_) => ClientEventMask::NoEventMask,
            _ => ClientEventMask::SubstructureNotify,
        }
    }

    /// The name of the message type (dtype) of the built message.
    pub open spec fn dtype_name(self) -> Seq<char> {
        match self {
            ClientMessageKind::DeleteWindow(_) => Atom::WmProtocols.name(),
            ClientMessageKind::TakeFocus(_) => Atom::WmProtocols.name(),
            ClientMessageKind::TakeSystrayOwnership(_, _) => Atom::Manager.name(),
            _ => Atom::XEmbed.name(),
        }
    }

    /// The one atom name the builder must resolve for this kind, if any.
    /// XEmbed notifications embed only fixed constants and window ids, so
    /// they resolve nothing and can never fail.
    pub open spec fn required_atom(self) -> Option<Seq<char>> {
        match self {
            ClientMessageKind::DeleteWindow(_) => Some(Atom::WmDeleteWindow.name()),
            ClientMessageKind::TakeFocus(_) => Some(Atom::WmTakeFocus.name()),
            ClientMessageKind::TakeSystrayOwnership(_, _) => Some(Atom::NetSystemTrayS0.name()),
            _ => None,
        }
    }

    /// The five payload words of the built message, given the id the
    /// required atom resolved to (ignored by the XEmbed kinds).
    ///
    /// The zero first word of the systray message is a timestamp
    /// placeholder: the true time is owned by the caller/transport.
    pub open spec fn message_data(self, resolved: u32) -> Seq<u32> {
        match self {
            ClientMessageKind::DeleteWindow(_) => seq![resolved, 0u32, 0u32, 0u32, 0u32],
            ClientMessageKind::TakeFocus(_) => seq![resolved, 0u32, 0u32, 0u32, 0u32],
            ClientMessageKind::TakeSystrayOwnership(_, systray_id) =>
                seq![0u32, resolved, systray_id, 0u32, 0u32],
            ClientMessageKind::XEmbedFocusIn(_, other) =>
                seq![0u32, XEMBED_FOCUS_IN, 0u32, other, XEMBED_PROTOCOL_VERSION],
            ClientMessageKind::XEmbedModalityOn(_, other) =>
                seq![0u32, XEMBED_MODALITY_ON, 0u32, other, XEMBED_PROTOCOL_VERSION],
            ClientMessageKind::XEmbedNotify(_, other) =>
                seq![0u32, XEMBED_NOTIFY, 0u32, other, XEMBED_PROTOCOL_VERSION],
            ClientMessageKind::XEmbedWindowActivate(_, other) =>
                seq![0u32, XEMBED_WINDOW_ACTIVATE, 0u32, other, XEMBED_PROTOCOL_VERSION],
        }
    }

    /// Build a default [`ClientMessage`] compatible with X11 / XCB formats.
    ///
    /// The message is addressed to [`Self::target`], carries the mask
    /// [`Self::mask`], the type name [`Self::dtype_name`] and the payload
    /// [`Self::message_data`] applied to whatever the one required atom
    /// resolved to. The only failure mode is the resolver failing on that
    /// name, and then its error is handed back unchanged.
    pub fn as_message<Q: XAtomQuerier>(&self, s: &Q) -> (r: Result<ClientMessage, XError>)
        ensures
            (match self.required_atom() {
                Some(name) => (match s.atom_id_spec(name) {
                    Ok(resolved) => is_built_message(r, *self, resolved),
                    Err(cause) => resolution_failed(r, name, cause),
                }),
                None => is_built_message(r, *self, 0),
            }),
    {
        match self {
            ClientMessageKind::DeleteWindow(id) => proto_msg(s, *id, Atom::WmDeleteWindow),
            ClientMessageKind::TakeFocus(id) => proto_msg(s, *id, Atom::WmTakeFocus),

            ClientMessageKind::TakeSystrayOwnership(root_id, systray_id) => {
                match s.atom_id(Atom::NetSystemTrayS0.as_str()) {
                    Ok(systray) => {
                        let mut data: Vec<u32> = Vec::new();
                        data.push(0);
                        data.push(systray);
                        data.push(*systray_id);
                        data.push(0);
                        data.push(0);
                        proof {
                            assert(data@ =~= seq![0u32, systray, *systray_id, 0u32, 0u32]);
                        }
                        Ok(ClientMessage::from_data_unchecked(
                            *root_id,
                            ClientEventMask::SubstructureNotify,
                            Atom::Manager.as_str(),
                            data.as_slice(),
                        ))
                    }
                    Err(e) => Err(e),
                }
            }

            ClientMessageKind::XEmbedFocusIn(id, other) => Ok(xembed_msg(*id, *other, XEMBED_FOCUS_IN)),
            ClientMessageKind::XEmbedModalityOn(id, other) => Ok(xembed_msg(*id, *other, XEMBED_MODALITY_ON)),
            ClientMessageKind::XEmbedNotify(id, other) => Ok(xembed_msg(*id, *other, XEMBED_NOTIFY)),
            ClientMessageKind::XEmbedWindowActivate(id, other) => Ok(xembed_msg(*id, *other, XEMBED_WINDOW_ACTIVATE)),
        }
    }
}

/// Holds when `r` is a successfully built message with exactly the target,
/// mask, type name and payload that `kind` asks for, given what the one
/// required atom resolved to.
pub open spec fn is_built_message(r: Result<ClientMessage, XError>, kind: ClientMessageKind, resolved: u32) -> bool {
    match r {
        Ok(m) => m@.id == kind.target()
            && m@.mask == kind.mask()
            && m@.dtype == kind.dtype_name()
            && m@.data == kind.message_data(resolved)
            && m.wf(),
        Err(_) => false,
    }
}

/// Law: the four XEmbed kinds resolve no atom, propagate to hierarchy
/// listeners, and lay their payload out as
/// `[0, opcode, 0, other-window-id, protocol-version]`, with the fixed
/// protocol version always at index 4 and the kind's opcode at index 1.
pub proof fn lemma_xembed_data_layout(kind: ClientMessageKind, resolved: u32)
    requires
        kind.is_xembed(),
    ensures
        kind.required_atom() is None,
        kind.mask() == ClientEventMask::SubstructureNotify,
        kind.dtype_name() == Atom::XEmbed.name(),
        kind.message_data(resolved).len() == CLIENT_MESSAGE_WORDS,
        kind.message_data(resolved)[0] == 0,
        kind.message_data(resolved)[1] == kind.xembed_opcode(),
        kind.message_data(resolved)[2] == 0,
        kind.message_data(resolved)[4] == XEMBED_PROTOCOL_VERSION,
{
}

/// Law: `DeleteWindow(id)` and `TakeFocus(id)` both build a message
/// addressed to `id` that any client can receive, whose payload is the
/// resolved protocol atom followed by four zero words.
pub proof fn lemma_protocol_message_shape(id: Xid, resolved: u32)
    ensures
        ClientMessageKind::DeleteWindow(id).target() == id,
        ClientMessageKind::TakeFocus(id).target() == id,
        ClientMessageKind::DeleteWindow(id).mask() == ClientEventMask::NoEventMask,
        ClientMessageKind::TakeFocus(id).mask() == ClientEventMask::NoEventMask,
        ClientMessageKind::DeleteWindow(id).message_data(resolved)
            == ClientMessageKind::TakeFocus(id).message_data(resolved),
        ClientMessageKind::DeleteWindow(id).message_data(resolved).len() == CLIENT_MESSAGE_WORDS,
        ClientMessageKind::DeleteWindow(id).message_data(resolved)[0] == resolved,
        ClientMessageKind::DeleteWindow(id).message_data(resolved)[1] == 0,
        ClientMessageKind::DeleteWindow(id).message_data(resolved)[2] == 0,
        ClientMessageKind::DeleteWindow(id).message_data(resolved)[3] == 0,
        ClientMessageKind::DeleteWindow(id).message_data(resolved)[4] == 0,
{
}

/// Law: `TakeSystrayOwnership(root_id, systray_id)` builds a message
/// addressed to the root window that propagates to hierarchy listeners,
/// with the resolved systray selection atom at index 1, the systray window
/// id at index 2, and the timestamp placeholder plus the tail words zero.
pub proof fn lemma_systray_message_shape(root_id: Xid, systray_id: Xid, resolved: u32)
    ensures
        ClientMessageKind::TakeSystrayOwnership(root_id, systray_id).target() == root_id,
        ClientMessageKind::TakeSystrayOwnership(root_id, systray_id).mask()
            == ClientEventMask::SubstructureNotify,
        ClientMessageKind::TakeSystrayOwnership(root_id, systray_id).dtype_name()
            == Atom::Manager.name(),
        ClientMessageKind::TakeSystrayOwnership(root_id, systray_id).required_atom()
            == Some(Atom::NetSystemTrayS0.name()),
        ClientMessageKind::TakeSystrayOwnership(root_id, systray_id).message_data(resolved).len()
            == CLIENT_MESSAGE_WORDS,
        ClientMessageKind::TakeSystrayOwnership(root_id, systray_id).message_data(resolved)[0] == 0,
        ClientMessageKind::TakeSystrayOwnership(root_id, systray_id).message_data(resolved)[1]
            == resolved,
        ClientMessageKind::TakeSystrayOwnership(root_id, systray_id).message_data(resolved)[2]
            == systray_id,
        ClientMessageKind::TakeSystrayOwnership(root_id, systray_id).message_data(resolved)[3] == 0,
        ClientMessageKind::TakeSystrayOwnership(root_id, systray_id).message_data(resolved)[4] == 0,
{
}

/// Law: the builder never produces a payload violating the fixed word
/// count, so re-validating a successfully built message through
/// [`ClientMessage::try_from_data`] with the same fields always succeeds
/// by that constructor's contract.
pub proof fn lemma_round_trip(r: Result<ClientMessage, XError>, kind: ClientMessageKind, resolved: u32)
    requires
        is_built_message(r, kind, resolved),
    ensures
        r matches Ok(m) && valid_message_data(m@.data),
{
}

/// Build a window-manager protocol message: the type is WM_PROTOCOLS, the
/// first payload word is the resolved id of the specific protocol atom, and
/// any client must be able to receive it.
fn proto_msg<Q: XAtomQuerier>(s: &Q, id: Xid, atom: Atom) -> (r: Result<ClientMessage, XError>)
    ensures
        (match s.atom_id_spec(atom.name()) {
            Ok(resolved) => (r matches Ok(m)
                && m@.id == id
                && m@.mask == ClientEventMask::NoEventMask
                && m@.dtype == Atom::WmProtocols.name()
                && m@.data == seq![resolved, 0u32, 0u32, 0u32, 0u32]
                && m.wf()),
            Err(cause) => resolution_failed(r, atom.name(), cause),
        }),
{
    match s.atom_id(atom.as_str()) {
        Ok(resolved) => {
            let mut data: Vec<u32> = Vec::new();
            data.push(resolved);
            data.push(0);
            data.push(0);
            data.push(0);
            data.push(0);
            proof {
                assert(data@ =~= seq![resolved, 0u32, 0u32, 0u32, 0u32]);
            }
            Ok(ClientMessage::from_data_unchecked(
                id,
                ClientEventMask::NoEventMask,
                Atom::WmProtocols.as_str(),
                data.as_slice(),
            ))
        }
        Err(e) => Err(e),
    }
}

/// Build one of the four XEmbed notifications. The payload embeds only
/// fixed constants and window ids, so no atom needs resolving and the
/// construction cannot fail.
fn xembed_msg(id: Xid, other: Xid, opcode: u32) -> (r: ClientMessage)
    ensures
        r@.id == id,
        r@.mask == ClientEventMask::SubstructureNotify,
        r@.dtype == Atom::XEmbed.name(),
        r@.data == seq![0u32, opcode, 0u32, other, XEMBED_PROTOCOL_VERSION],
        r.wf(),
{
    let mut data: Vec<u32> = Vec::new();
    data.push(0);
    data.push(opcode);
    data.push(0);
    data.push(other);
    data.push(XEMBED_PROTOCOL_VERSION);
    proof {
        assert(data@ =~= seq![0u32, opcode, 0u32, other, XEMBED_PROTOCOL_VERSION]);
    }
    ClientMessage::from_data_unchecked(
        id,
        ClientEventMask::SubstructureNotify,
        Atom::XEmbed.as_str(),
        data.as_slice(),
    )
}

/// A configure request or notification when a client changes position or
/// size. `is_root` distinguishes events about the root/desktop window from
/// ordinary client windows.
#[derive(Debug, Clone, Copy, PartialEq, Eq, Hash)]
pub struct ConfigureEvent {
    /// The ID of the window that had a property changed
    pub id: Xid,
    /// The new window size
    pub r: Region,
    /// Is this window the root window?
    pub is_root: bool,
}

/// A notification that a window has become visible. A count of zero signals
/// the last event of the current repaint batch.
#[derive(Debug, Clone, Copy, PartialEq, Eq, Hash)]
pub struct ExposeEvent {
    /// The ID of the window that has become exposed
    pub id: Xid,
    /// The current size and position of the window
    pub r: Region,
    /// How many following expose events are pending
    pub count: usize,
}

/// A notification that the mouse pointer has entered or left a window.
/// Both coordinates are carried because window geometry may have changed
/// between event generation and handling.
#[derive(Debug, Clone, Copy, PartialEq, Eq, Hash)]
pub struct PointerChange {
    /// The ID of the window that was entered or left
    pub id: Xid,
    /// Absolute coordinate of the event
    pub abs: Point,
    /// Coordinate of the event relative to the top-left of the window
    pub relative: Point,
}

/// A property change on a known client.
#[derive(Debug, Clone, PartialEq, Eq, Hash)]
pub struct PropertyEvent {
    /// The ID of the window that had a property changed
    pub id: Xid,
    /// The name of the property that changed, as a resolved string
    pub atom: String,
    /// Is this window the root window?
    pub is_root: bool,
}

} // verus!
