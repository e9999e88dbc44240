//! The WebSocket event family and the upgrade metadata attached to a
//! scope.

use vstd::prelude::*;

use crate::headers::Headers;
use crate::strutil::str_views;

verus! {

/// Protocol identifier that WebSocket adapters put on a scope.
pub fn protocol_websocket() -> (s: String)
    ensures
        s@ == "websocket"@,
{
    String::from_str("websocket")
}

/// Family tag of WebSocket events.
pub fn event_websocket() -> (s: String)
    ensures
        s@ == "websocket"@,
{
    String::from_str("websocket")
}

/// Upgrade metadata attached to a scope when a WebSocket handshake is offered.
pub struct WebSocketScope {
    pub subprotocols: Vec<String>,
}

/// The mathematical value of a [`WebSocketScope`].
#[verifier::ext_equal]
pub struct WebSocketScopeView {
    pub subprotocols: Seq<Seq<char>>,
}

impl View for WebSocketScope {
    type V = WebSocketScopeView;

    open spec fn view(&self) -> WebSocketScopeView {
        WebSocketScopeView { subprotocols: str_views(self.subprotocols@) }
    }
}

impl Clone for WebSocketScope {
    /// A clone carries exactly the subprotocol list of the original.
    fn clone(&self) -> (r: Self)
        ensures
            r@ == self@,
    {
        let mut subprotocols: Vec<String> = Vec::new();
        let mut i: usize = 0;
        proof {
            assert(str_views(subprotocols@) =~= str_views(self.subprotocols@).take(0));
        }
        while i < self.subprotocols.len()
            invariant
                i <= self.subprotocols.len(),
                subprotocols@.len() == i,
                str_views(subprotocols@) =~= str_views(self.subprotocols@).take(i as int),
            decreases self.subprotocols.len() - i,
        {
            let s = self.subprotocols[i].clone();
            subprotocols.push(s);
            proof {
                assert(str_views(subprotocols@) =~= str_views(self.subprotocols@).take(i + 1));
            }
            i = i + 1;
        }
        let r = WebSocketScope { subprotocols };
        proof {
            assert(str_views(self.subprotocols@).take(self.subprotocols@.len() as int) =~= str_views(
                self.subprotocols@,
            ));
            assert(r@ =~= self@);
        }
        r
    }
}

impl Default for WebSocketScope {
    /// No subprotocols offered.
    fn default() -> (r: Self)
        ensures
            r@.subprotocols == Seq::<Seq<char>>::empty(),
    {
        let r = WebSocketScope { subprotocols: Vec::new() };
        proof {
            assert(r@.subprotocols =~= Seq::<Seq<char>>::empty());
        }
        r
    }
}

/// The service's notice that a peer offered a WebSocket connection.
#[derive(Clone, Copy, Debug, PartialEq, Eq, Structural)]
pub struct Connect {}

impl Default for Connect {
    /// The only value there is.
    fn default() -> (r: Self)
        ensures
            r == (Connect {  }),
    {
        Connect {  }
    }
}

/// The service's acceptance of an offered WebSocket connection.
pub struct Accept {
    pub subprotocol: Option<String>,
    pub headers: Headers,
}

/// The mathematical value of an [`Accept`].
#[verifier::ext_equal]
pub struct AcceptView {
    pub subprotocol: Option<Seq<char>>,
    pub headers: Seq<(Seq<char>, Seq<char>)>,
}

/// The view of an optional owned string.
pub open spec fn opt_str_view(s: Option<String>) -> Option<Seq<char>> {
    match s {
        Some(v) => Some(v@),
        None => None,
    }
}

impl View for Accept {
    type V = AcceptView;

    open spec fn view(&self) -> AcceptView {
        AcceptView { subprotocol: opt_str_view(self.subprotocol), headers: self.headers@ }
    }
}

impl Clone for Accept {
    /// A clone carries exactly the fields of the original.
    fn clone(&self) -> (r: Self)
        ensures
            r@ == self@,
    {
        Accept {
            subprotocol: match &self.subprotocol {
                Some(s) => Some(s.clone()),
                None => None,
            },
            headers: self.headers.clone(),
        }
    }
}

impl Default for Accept {
    /// No subprotocol selected and no extra headers.
    fn default() -> (r: Self)
        ensures
            r@.subprotocol is None,
            r@.headers == Seq::<(Seq<char>, Seq<char>)>::empty(),
    {
        Accept { subprotocol: None, headers: Headers::new() }
    }
}

/// A text frame.
pub struct TextFrame {
    pub data: String,
}

/// The mathematical value of a [`TextFrame`].
#[verifier::ext_equal]
pub struct TextFrameView {
    pub data: Seq<char>,
}

impl View for TextFrame {
    type V = TextFrameView;

    open spec fn view(&self) -> TextFrameView {
        TextFrameView { data: self.data@ }
    }
}

impl Clone for TextFrame {
    /// A clone carries exactly the text of the original.
    fn clone(&self) -> (r: Self)
        ensures
            r@ == self@,
    {
        TextFrame { data: self.data.clone() }
    }
}

impl Default for TextFrame {
    /// An empty text frame.
    fn default() -> (r: Self)
        ensures
            r@.data == Seq::<char>::empty(),
    {
        TextFrame { data: String::new() }
    }
}

/// A binary frame.
pub struct BinaryFrame {
    pub data: Vec<u8>,
}

/// The mathematical value of a [`BinaryFrame`].
#[verifier::ext_equal]
pub struct BinaryFrameView {
    pub data: Seq<u8>,
}

impl View for BinaryFrame {
    type V = BinaryFrameView;

    open spec fn view(&self) -> BinaryFrameView {
        BinaryFrameView { data: self.data@ }
    }
}

impl Clone for BinaryFrame {
    /// A clone carries exactly the bytes of the original.
    fn clone(&self) -> (r: Self)
        ensures
            r@ == self@,
    {
        let r = BinaryFrame { data: self.data.clone() };
        proof {
            assert(r.data@ =~= self.data@);
        }
        r
    }
}

impl Default for BinaryFrame {
    /// An empty binary frame.
    fn default() -> (r: Self)
        ensures
            r@.data == Seq::<u8>::empty(),
    {
        let r = BinaryFrame { data: Vec::new() };
        proof {
            assert(r.data@ =~= Seq::<u8>::empty());
        }
        r
    }
}

/// Notice that the WebSocket peer went away, with the close code observed.
#[derive(Clone, Copy, Debug, PartialEq, Eq, Structural)]
pub struct Disconnect {
    pub code: u16,
}

impl Default for Disconnect {
    /// Code 1005: no status code was present.
    fn default() -> (r: Self)
        ensures
            r.code == 1005,
    {
        Disconnect { code: 1005 }
    }
}

/// An order to close, or notice of a close frame, with code and reason.
pub struct Close {
    pub code: u16,
    pub reason: Option<String>,
}

/// The mathematical value of a [`Close`].
#[verifier::ext_equal]
pub struct CloseView {
    pub code: u16,
    pub reason: Option<Seq<char>>,
}

impl View for Close {
    type V = CloseView;

    open spec fn view(&self) -> CloseView {
        CloseView { code: self.code, reason: opt_str_view(self.reason) }
    }
}

impl Clone for Close {
    /// A clone carries exactly the code and reason of the original.
    fn clone(&self) -> (r: Self)
        ensures
            r@ == self@,
    {
        Close {
            code: self.code,
            reason: match &self.reason {
                Some(s) => Some(s.clone()),
                None => None,
            },
        }
    }
}

impl Default for Close {
    /// Code 1000: normal closure, with no reason.
    fn default() -> (r: Self)
        ensures
            r@.code == 1000,
            r@.reason is None,
    {
        Close { code: 1000, reason: None }
    }
}

/// An event of the WebSocket family.
pub enum WebSocketEvent {
    Connect(Connect),
    Accept(Accept),
    TextFrame(TextFrame),
    BinaryFrame(BinaryFrame),
    Disconnect(Disconnect),
    Close(Close),
}

/// The mathematical value of a [`WebSocketEvent`].
#[verifier::ext_equal]
pub enum WebSocketEventView {
    Connect(Connect),
    Accept(AcceptView),
    TextFrame(TextFrameView),
    BinaryFrame(BinaryFrameView),
    Disconnect(Disconnect),
    Close(CloseView),
}

impl View for WebSocketEvent {
    type V = WebSocketEventView;

    open spec fn view(&self) -> WebSocketEventView {
        match self {
            WebSocketEvent::Connect(c) => WebSocketEventView::Connect(*c),
            WebSocketEvent::Accept(a) => WebSocketEventView::Accept(a@),
            WebSocketEvent::TextFrame(t) => WebSocketEventView::TextFrame(t@),
            WebSocketEvent::BinaryFrame(b) => WebSocketEventView::BinaryFrame(b@),
            WebSocketEvent::Disconnect(d) => WebSocketEventView::Disconnect(*d),
            WebSocketEvent::Close(c) => WebSocketEventView::Close(c@),
        }
    }
}

impl Clone for WebSocketEvent {
    /// A clone carries exactly the variant and payload of the original.
    fn clone(&self) -> (r: Self)
        ensures
            r@ == self@,
    {
        match self {
            WebSocketEvent::Connect(c) => WebSocketEvent::Connect(*c),
            WebSocketEvent::Accept(a) => WebSocketEvent::Accept(a.clone()),
            WebSocketEvent::TextFrame(t) => WebSocketEvent::TextFrame(t.clone()),
            WebSocketEvent::BinaryFrame(b) => WebSocketEvent::BinaryFrame(b.clone()),
            WebSocketEvent::Disconnect(d) => WebSocketEvent::Disconnect(*d),
            WebSocketEvent::Close(c) => WebSocketEvent::Close(c.clone()),
        }
    }
}

} // verus!
