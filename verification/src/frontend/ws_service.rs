//! The websocket component: opens and closes a socket on request, sends a
//! fixed document through it, and keeps the last document it received.

use vstd::prelude::*;
use vstd::std_specs::convert::FromSpecImpl;

verus! {

/// The document exchanged over the websocket.
pub struct MyJsonFile {
    pub name: String,
    pub number: i32,
}

impl MyJsonFile {
    /// The document's name and number as plain values.
    pub open spec fn fields(&self) -> (Seq<char>, i32) {
        (self.name@, self.number)
    }
}

/// Whether to start or stop following an empire.
pub enum SubscriptionAction {
    Subscribe,
    Unsubscribe,
}

/// A request to follow, or stop following, an empire.
pub struct SubscriptionRequest {
    pub action: SubscriptionAction,
    pub empire_name: String,
}

/// What the user, or the socket's state, asks of the component.
pub enum WsAction {
    Connect,
    SendData,
    Disconnect,
    Lost,
}

/// The component's messages.
pub enum Msg {
    WsAction(WsAction),
    /// A document arrived; the error's text where it could not be read.
    WsReady(Result<MyJsonFile, String>),
    Ignore,
}

impl From<WsAction> for Msg {
    fn from(action: WsAction) -> (msg: Self) {
        Msg::WsAction(action)
    }
}

impl FromSpecImpl<WsAction> for Msg {
    open spec fn obeys_from_spec() -> bool {
        true
    }

    open spec fn from_spec(action: WsAction) -> Self {
        Msg::WsAction(action)
    }
}

/// The state a websocket reports.
pub enum SocketStatus {
    Opened,
    Closed,
    Error,
}

/// The message a socket status is answered with: opening needs nothing, a
/// closed or failed socket counts as lost.
pub fn status_msg(status: SocketStatus) -> (msg: Msg)
    ensures
        status is Opened ==> msg is Ignore,
        !(status is Opened) ==> msg == Msg::WsAction(WsAction::Lost),
{
    match status {
        SocketStatus::Opened => Msg::Ignore,
        SocketStatus::Closed | SocketStatus::Error => Msg::from(WsAction::Lost),
    }
}

/// What the component asks of the socket after a message.
pub enum Command {
    /// Leave the socket as it is.
    Keep,
    /// Open a socket, replacing any open one.
    Open,
    /// Send this document through the open socket.
    Send(MyJsonFile),
    /// Drop the socket.
    Close,
}

/// The document the component sends on request.
pub open spec fn outgoing_fields() -> (Seq<char>, i32) {
    ("websocket out"@, 23i32)
}

/// The websocket component's state.
pub struct WebsocketComponent {
    /// The last document received, if it could be read.
    pub data: Option<MyJsonFile>,
    /// Whether a socket is open.
    pub connected: bool,
}

impl WebsocketComponent {
    /// No document yet, no socket.
    pub fn create() -> (c: Self)
        ensures
            c.data is None,
            !c.connected,
    {
        WebsocketComponent { data: None, connected: false }
    }

    /// The component takes no properties: a change never redraws.
    pub fn change(&mut self) -> (render: bool)
        ensures
            !render,
            *final(self) == *old(self),
    {
        false
    }

    /// Answers one message: what to do with the socket, and whether to
    /// redraw. Sending needs an open socket.
    pub fn update(&mut self, msg: Msg) -> (outcome: (bool, Command))
        requires
            msg == Msg::WsAction(WsAction::SendData) ==> old(self).connected,
        ensures
            outcome.0 == !(msg is Ignore),
            !(msg is WsReady) ==> final(self).data == old(self).data,
            (msg is WsReady || msg is Ignore || msg == Msg::WsAction(WsAction::SendData))
                ==> final(self).connected == old(self).connected,
            final(self).connected == match outcome.1 {
                Command::Open => true,
                Command::Close => false,
                _ => old(self).connected,
            },
            match msg {
                Msg::WsAction(WsAction::Connect) => {
                    &&& outcome.0
                    &&& outcome.1 is Open
                    &&& final(self).connected
                    &&& final(self).data == old(self).data
                },
                Msg::WsAction(WsAction::SendData) => {
                    &&& outcome.0
                    &&& outcome.1 matches Command::Send(doc) && doc.fields() == outgoing_fields()
                    &&& *final(self) == *old(self)
                },
                Msg::WsAction(WsAction::Disconnect) | Msg::WsAction(WsAction::Lost) => {
                    &&& outcome.0
                    &&& outcome.1 is Close
                    &&& !final(self).connected
                    &&& final(self).data == old(self).data
                },
                Msg::WsReady(response) => {
                    &&& outcome.0
                    &&& outcome.1 is Keep
                    &&& final(self).data == response.ok()
                    &&& final(self).connected == old(self).connected
                },
                Msg::Ignore => {
                    &&& !outcome.0
                    &&& outcome.1 is Keep
                    &&& *final(self) == *old(self)
                },
            },
    {
        match msg {
            Msg::WsAction(action) => match action {
                WsAction::Connect => {
                    self.connected = true;
                    (true, Command::Open)
                },
                WsAction::SendData => {
                    let request = MyJsonFile { name: String::from_str("websocket out"), number: 23 };
                    (true, Command::Send(request))
                },
                WsAction::Disconnect => {
                    self.connected = false;
                    (true, Command::Close)
                },
                WsAction::Lost => {
                    self.connected = false;
                    (true, Command::Close)
                },
            },
            Msg::WsReady(response) => {
                self.data = response.ok();
                (true, Command::Keep)
            },
            Msg::Ignore => (false, Command::Keep),
        }
    }

    /// Whether the connect button is disabled: a socket is already open.
    pub fn connect_disabled(&self) -> (disabled: bool)
        ensures
            disabled == self.connected,
    {
        self.connected
    }

    /// Whether the send and close buttons are disabled: no socket is open.
    pub fn socket_buttons_disabled(&self) -> (disabled: bool)
        ensures
            disabled == !self.connected,
    {
        !self.connected
    }
}

} // verus!
