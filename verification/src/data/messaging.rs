use tokio::sync::mpsc::{UnboundedReceiver, UnboundedSender};
use vstd::prelude::*;

verus! {

/// tokio's sending half of an unbounded channel, carried as an opaque value.
#[verifier::external_type_specification]
#[verifier::external_body]
#[verifier::reject_recursive_types(T)]
pub struct ExUnboundedSender<T>(UnboundedSender<T>);

/// tokio's receiving half of an unbounded channel, carried as an opaque value.
#[verifier::external_type_specification]
#[verifier::external_body]
#[verifier::reject_recursive_types(T)]
pub struct ExUnboundedReceiver<T>(UnboundedReceiver<T>);

/// Calls `Clone::clone` of tokio's `UnboundedSender`, which builds a new
/// sender around a clone of the same channel handle; to Verus, which sees
/// no more of a sender than the channel it feeds, the copy equals the
/// original.
#[verifier::external_body]
fn clone_sender(s: &UnboundedSender<InternMessage>) -> (r: UnboundedSender<InternMessage>)
    ensures
        r == *s,
{
    s.clone()
}

/// A message as it travels over a websocket: a request code (`preflight`)
/// and an optional payload, which is itself JSON text.
#[derive(Clone, Debug)]
pub struct ExternMessage {
    pub preflight: String,
    pub contents: Option<String>,
}

/// A message as it travels between the server's own tasks.
#[derive(Clone, Debug)]
pub struct InternMessage {
    pub code: Option<String>,
    pub msg: Option<String>,
}

/// The characters of an `ExternMessage`.
pub struct ExternMessageView {
    pub preflight: Seq<char>,
    pub contents: Option<Seq<char>>,
}

/// The characters of an `InternMessage`.
pub struct InternMessageView {
    pub code: Option<Seq<char>>,
    pub msg: Option<Seq<char>>,
}

impl View for ExternMessage {
    type V = ExternMessageView;

    open spec fn view(&self) -> ExternMessageView {
        ExternMessageView { preflight: self.preflight@, contents: self.contents.deep_view() }
    }
}

impl View for InternMessage {
    type V = InternMessageView;

    open spec fn view(&self) -> InternMessageView {
        InternMessageView { code: self.code.deep_view(), msg: self.msg.deep_view() }
    }
}

/// The internal form of an external message: its request code becomes the
/// code, its payload the message.
pub open spec fn intern_of(m: ExternMessageView) -> InternMessageView {
    InternMessageView { code: Some(m.preflight), msg: m.contents }
}

/// The external form of an internal message that carries a code.
pub open spec fn extern_of(m: InternMessageView) -> ExternMessageView
    recommends
        m.code is Some,
{
    ExternMessageView { preflight: m.code->0, contents: m.msg }
}

impl ExternMessage {
    /// A message with request code `preflight` whose payload is `contents`,
    /// the JSON encoding of whatever goes with the request.
    pub fn new(preflight: String, contents: String) -> (m: ExternMessage)
        ensures
            m.preflight == preflight,
            m.contents == Some(contents),
    {
        let p = preflight;
        let c = contents;
        ExternMessage { preflight: p, contents: Some(c) }
    }

    /// The external form of `value`, which must carry a code: the code
    /// becomes the request code, the message the payload.
    pub fn from_intern(value: InternMessage) -> (m: ExternMessage)
        requires
            value.code is Some,
        ensures
            m.preflight == value.code->0,
            m.contents == value.msg,
            m@ == extern_of(value@),
    {
        ExternMessage { preflight: value.code.unwrap(), contents: value.msg }
    }
}

impl InternMessage {
    pub fn new(code: Option<String>, msg: Option<String>) -> (m: InternMessage)
        ensures
            m.code == code,
            m.msg == msg,
    {
        InternMessage { code, msg }
    }
}

impl From<ExternMessage> for InternMessage {
    fn from(value: ExternMessage) -> (m: InternMessage)
        ensures
            m.code == Some(value.preflight),
            m.msg == value.contents,
            m@ == intern_of(value@),
    {
        InternMessage { code: Some(value.preflight), msg: value.contents }
    }
}

impl vstd::std_specs::convert::FromSpecImpl<ExternMessage> for InternMessage {
    open spec fn obeys_from_spec() -> bool {
        true
    }

    open spec fn from_spec(v: ExternMessage) -> InternMessage {
        InternMessage { code: Some(v.preflight), msg: v.contents }
    }
}

/// The channels through which the tasks of the server reach each other.
/// The Python connection registers them; the browser connection then
/// claims the senders and the one receiver meant for it.
pub struct GlobalComms {
    pub send_to_py: Option<UnboundedSender<InternMessage>>,
    pub recv_from_py: Option<UnboundedReceiver<InternMessage>>,
    pub send_to_brow: Option<UnboundedSender<InternMessage>>,
    pub send_to_main: Option<UnboundedSender<InternMessage>>,
}

/// What a browser connection takes from the registry: a sender towards the
/// browser task, a sender towards the Python task, and the receiver of the
/// messages meant for the browser.
pub struct BrowserLink {
    pub to_browser: UnboundedSender<InternMessage>,
    pub to_python: UnboundedSender<InternMessage>,
    pub from_python: UnboundedReceiver<InternMessage>,
}

impl GlobalComms {
    /// A browser can attach when both senders are registered and the
    /// receiver has not been claimed yet.
    pub open spec fn browser_can_attach(self) -> bool {
        &&& self.send_to_brow is Some
        &&& self.send_to_py is Some
        &&& self.recv_from_py is Some
    }

    /// The registry after a browser attached: the receiver is gone, the
    /// senders stay. A failed attach leaves the registry as it was.
    pub open spec fn after_attach(self) -> GlobalComms {
        if self.browser_can_attach() {
            GlobalComms { recv_from_py: None, ..self }
        } else {
            self
        }
    }

    /// The registry after the Python connection registered its channels.
    pub open spec fn with_python(
        self,
        send_to_py: UnboundedSender<InternMessage>,
        recv_from_py: UnboundedReceiver<InternMessage>,
        send_to_brow: UnboundedSender<InternMessage>,
        send_to_main: UnboundedSender<InternMessage>,
    ) -> GlobalComms {
        GlobalComms {
            send_to_py: Some(send_to_py),
            recv_from_py: Some(recv_from_py),
            send_to_brow: Some(send_to_brow),
            send_to_main: Some(send_to_main),
        }
    }

    /// An empty registry.
    pub fn new() -> (c: GlobalComms)
        ensures
            c.send_to_py is None,
            c.recv_from_py is None,
            c.send_to_brow is None,
            c.send_to_main is None,
    {
        GlobalComms { send_to_py: None, send_to_brow: None, recv_from_py: None, send_to_main: None }
    }

    /// Records the channels of a new Python connection, replacing any that
    /// an earlier connection left.
    pub fn register_python(
        &mut self,
        send_to_py: UnboundedSender<InternMessage>,
        recv_from_py: UnboundedReceiver<InternMessage>,
        send_to_brow: UnboundedSender<InternMessage>,
        send_to_main: UnboundedSender<InternMessage>,
    )
        ensures
            *final(self) == old(self).with_python(send_to_py, recv_from_py, send_to_brow, send_to_main),
            final(self).send_to_py == Some(send_to_py),
            final(self).recv_from_py == Some(recv_from_py),
            final(self).send_to_brow == Some(send_to_brow),
            final(self).send_to_main == Some(send_to_main),
    {
        self.send_to_py = Some(send_to_py);
        self.recv_from_py = Some(recv_from_py);
        self.send_to_brow = Some(send_to_brow);
        self.send_to_main = Some(send_to_main);
    }

    /// Hands a browser connection its channels: copies of the two senders
    /// and the receiver itself, which leaves the registry. `None` when
    /// something is missing; the registry is then untouched.
    pub fn attach_browser(&mut self) -> (link: Option<BrowserLink>)
        ensures
            link is Some <==> old(self).browser_can_attach(),
            *final(self) == old(self).after_attach(),
            link is Some <==> (old(self).send_to_brow is Some && old(self).send_to_py is Some
                && old(self).recv_from_py is Some),
            link is None ==> *final(self) == *old(self),
            link is Some ==> final(self).recv_from_py is None,
            final(self).send_to_brow == old(self).send_to_brow,
            final(self).send_to_py == old(self).send_to_py,
            final(self).send_to_main == old(self).send_to_main,
            link matches Some(l) ==> old(self).send_to_brow == Some(l.to_browser),
            link matches Some(l) ==> old(self).send_to_py == Some(l.to_python),
            link matches Some(l) ==> old(self).recv_from_py == Some(l.from_python),
    {
        if self.send_to_brow.is_none() || self.send_to_py.is_none() || self.recv_from_py.is_none() {
            return None;
        }
        let to_browser = clone_sender(self.send_to_brow.as_ref().unwrap());
        let to_python = clone_sender(self.send_to_py.as_ref().unwrap());
        let from_python = self.recv_from_py.take().unwrap();
        Some(BrowserLink { to_browser, to_python, from_python })
    }
}

/// A browser connection can claim the receiver once: right after a
/// successful attach, a second attach fails and changes nothing.
pub proof fn lemma_attach_once(c: GlobalComms)
    requires
        c.browser_can_attach(),
    ensures
        !c.after_attach().browser_can_attach(),
        c.after_attach().after_attach() == c.after_attach(),
        c.after_attach().send_to_brow == c.send_to_brow,
        c.after_attach().send_to_py == c.send_to_py,
        c.after_attach().send_to_main == c.send_to_main,
{
}

/// Registering the Python connection puts each channel in the field of
/// the same name, whatever the registry held before: the receiver of an
/// earlier connection does not survive a new registration.
pub proof fn lemma_register_fields(
    c: GlobalComms,
    send_to_py: UnboundedSender<InternMessage>,
    recv_from_py: UnboundedReceiver<InternMessage>,
    send_to_brow: UnboundedSender<InternMessage>,
    send_to_main: UnboundedSender<InternMessage>,
)
    ensures
        c.with_python(send_to_py, recv_from_py, send_to_brow, send_to_main).send_to_py == Some(send_to_py),
        c.with_python(send_to_py, recv_from_py, send_to_brow, send_to_main).recv_from_py == Some(recv_from_py),
        c.with_python(send_to_py, recv_from_py, send_to_brow, send_to_main).send_to_brow == Some(send_to_brow),
        c.with_python(send_to_py, recv_from_py, send_to_brow, send_to_main).send_to_main == Some(send_to_main),
{
}

/// A browser can attach exactly when both senders are registered and the
/// receiver is there; attaching takes the receiver and keeps every sender,
/// and a refused attach changes nothing.
pub proof fn lemma_attach_fields(c: GlobalComms)
    ensures
        c.browser_can_attach() <==> (c.send_to_brow is Some && c.send_to_py is Some
            && c.recv_from_py is Some),
        c.browser_can_attach() ==> c.after_attach().recv_from_py is None,
        !c.browser_can_attach() ==> c.after_attach() == c,
        c.after_attach().send_to_brow == c.send_to_brow,
        c.after_attach().send_to_py == c.send_to_py,
        c.after_attach().send_to_main == c.send_to_main,
{
}

/// Once the Python connection has registered, a browser can attach,
/// whatever the registry held before.
pub proof fn lemma_register_enables_attach(
    c: GlobalComms,
    send_to_py: UnboundedSender<InternMessage>,
    recv_from_py: UnboundedReceiver<InternMessage>,
    send_to_brow: UnboundedSender<InternMessage>,
    send_to_main: UnboundedSender<InternMessage>,
)
    ensures
        c.with_python(send_to_py, recv_from_py, send_to_brow, send_to_main).browser_can_attach(),
{
}

/// Turning an external message into an internal one and back gives the
/// message that was started from.
pub proof fn lemma_extern_round_trip(m: ExternMessageView)
    ensures
        intern_of(m).code is Some,
        extern_of(intern_of(m)) == m,
{
}

/// Turning an internal message that carries a code into an external one and
/// back gives the message that was started from.
pub proof fn lemma_intern_round_trip(m: InternMessageView)
    requires
        m.code is Some,
    ensures
        intern_of(extern_of(m)) == m,
{
}

} // verus!
