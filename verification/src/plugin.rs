//! The plugin itself: what each callback of the host changes, and what it
//! leaves for the caller to do.

use vstd::prelude::*;
use crate::action::Action;
use crate::error::{DecodeError, FetchError};
use crate::json::{
    find_present, lemma_lookup_at, members_view, optional, push_member, Json, JsonView,
};
use crate::messages::{InspectorMessageIn, InspectorMessageOut, InspectorMessageOutView};
use crate::pipeline::{ThrowPipeline, ThrowPipelineView};
use crate::request::{Reply, Request, RequestView};
use crate::state::{item_query, items_request, State, DEFAULT_PORT};

verus! {

/// The properties that the host keeps for the plugin between runs.
#[derive(Clone, Copy, Debug, PartialEq, Eq, Structural)]
pub struct Properties {
    /// The port on which the companion service listens, where one was
    /// configured.
    pub port: Option<u16>,
}

impl Properties {
    /// What a document decodes to: an object whose member `port`, where it is
    /// there and not `null`, is a whole number of sixteen bits.
    pub open spec fn decoded(doc: JsonView) -> Result<Properties, DecodeError> {
        match doc.members() {
            Err(e) => Err(e),
            Ok(members) => match optional(members, "port"@) {
                None => Ok(Properties { port: None }),
                Some(value) => match value.small_unsigned() {
                    Ok(port) => Ok(Properties { port: Some(port) }),
                    Err(e) => Err(e),
                },
            },
        }
    }

    /// The document that stands for the properties.
    pub open spec fn document(self) -> JsonView {
        match self.port {
            Some(port) => JsonView::Object(seq![("port"@, JsonView::Integer(port as int))]),
            None => JsonView::Object(seq![("port"@, JsonView::Null)]),
        }
    }

    /// The port that the properties ask for: theirs, or the default one.
    pub open spec fn port_or_default(self) -> u16 {
        match self.port {
            Some(port) => port,
            None => DEFAULT_PORT,
        }
    }

    /// Decoding the document of some properties gives them back: a port that
    /// was saved is the port that the next run finds.
    pub proof fn lemma_round_trip(self)
        ensures
            Self::decoded(self.document()) == Ok::<_, DecodeError>(self),
    {
        let members = self.document()->Object_0;
        lemma_lookup_at(members, "port"@, 0);
    }

    /// Reads the properties from a document.
    pub fn decode(doc: &Json) -> (r: Result<Properties, DecodeError>)
        ensures
            r == Self::decoded(doc@),
    {
        let members = match doc.members() {
            Ok(members) => members,
            Err(e) => return Err(e),
        };
        match find_present(members, "port") {
            None => Ok(Properties { port: None }),
            Some(value) => match value.small_unsigned() {
                Ok(port) => Ok(Properties { port: Some(port) }),
                Err(e) => Err(e),
            },
        }
    }

    /// Writes the properties as a document, from which `decode` reads them
    /// back.
    pub fn encode(&self) -> (r: Json)
        ensures
            r@ == self.document(),
            Self::decoded(r@) == Ok::<_, DecodeError>(*self),
    {
        let mut members: Vec<(String, Json)> = Vec::new();
        match self.port {
            Some(port) => {
                push_member(&mut members, "port", Json::Integer(port as i128));
            },
            None => {
                push_member(&mut members, "port", Json::Null);
            },
        }
        proof {
            assert(members_view(members@) =~= self.document()->Object_0);
            self.lemma_round_trip();
        }
        Json::object(members)
    }
}

/// What a click on a tile comes to.
#[derive(Debug, PartialEq)]
pub enum Click {
    /// The identifier names no action of this plugin. Worth a note for
    /// debugging, no more.
    Unknown,
    /// The identifier names an action and the properties do not describe
    /// one. An error to report; the click is given up.
    Malformed(DecodeError),
    /// The tile names no item: there is nothing to throw, and nothing wrong.
    Nothing,
    /// A throw begins: send the request, and feed the pipeline its reply.
    Throw { pipeline: ThrowPipeline, request: Request },
}

/// The mathematical value of a [`Click`].
pub enum ClickView {
    Unknown,
    Malformed(DecodeError),
    Nothing,
    Throw { pipeline: ThrowPipelineView, request: RequestView },
}

impl View for Click {
    type V = ClickView;

    open spec fn view(&self) -> ClickView {
        match self {
            Click::Unknown => ClickView::Unknown,
            Click::Malformed(e) => ClickView::Malformed(*e),
            Click::Nothing => ClickView::Nothing,
            Click::Throw { pipeline, request } => ClickView::Throw {
                pipeline: pipeline@,
                request: request@,
            },
        }
    }
}

/// What a click comes to, for the port current when it arrives.
pub open spec fn clicked(port: u16, action_id: Seq<char>, properties: JsonView) -> ClickView {
    match Action::resolved(action_id, properties) {
        None => ClickView::Unknown,
        Some(Err(e)) => ClickView::Malformed(e),
        Some(Ok(Action::ThrowItem(throw))) => match throw.item {
            None => ClickView::Nothing,
            Some(item) => ClickView::Throw {
                pipeline: ThrowPipelineView::ResolvingItem,
                request: item_query(port, seq![item]),
            },
        },
    }
}

/// What a message of the panel leaves to do.
#[derive(Debug, PartialEq)]
pub enum PanelStep<H> {
    /// The message has no known shape. It is dropped, and nobody is told.
    Ignored,
    /// The panel asked for the items: send the request, then hand the reply
    /// and `reply_to` to [`deliver_items`].
    FetchItems {
        request: Request,
        /// The panel that was open when the message arrived.
        reply_to: Option<H>,
    },
    /// The port changed: have the host keep these properties.
    Persist(Properties),
}

/// What becomes of the items that were fetched for a panel.
#[derive(Debug, PartialEq)]
pub enum Delivery<H> {
    /// Send the message to the panel. A send that fails is not tried again.
    Send { to: H, message: InspectorMessageOut },
    /// No panel was open when the items were asked for: nothing is sent.
    NoPanel,
    /// The items could not be had: nothing is sent.
    Failed(FetchError),
}

/// Decides what becomes of the reply to an item listing that a panel asked
/// for. Where it holds items and a panel was open at the time, they go to
/// that panel; else nothing is sent.
pub fn deliver_items<H>(reply_to: Option<H>, reply: &Reply) -> (r: Delivery<H>)
    ensures
        match reply@.items() {
            Err(e) => r == Delivery::<H>::Failed(e),
            Ok(items) => match reply_to {
                None => r == Delivery::<H>::NoPanel,
                Some(panel) => r matches Delivery::Send { to, message } && to == panel && message@
                    == (InspectorMessageOutView::Items { items }),
            },
        },
{
    match reply.items() {
        Err(e) => Delivery::Failed(e),
        Ok(items) => match reply_to {
            None => Delivery::NoPanel,
            Some(panel) => Delivery::Send {
                to: panel,
                message: InspectorMessageOut::Items { items },
            },
        },
    }
}

/// The plugin: its configuration, and the callbacks of the host.
#[derive(Debug)]
pub struct VtftkPlugin<H> {
    state: State<H>,
}

impl<H> VtftkPlugin<H> {
    /// The configuration that the plugin holds.
    pub closed spec fn config(&self) -> State<H> {
        self.state
    }

    /// A plugin at start: the default port, and no panel.
    pub fn new() -> (r: Self)
        ensures
            r.config().current_port() == 8533,
            r.config().current_inspector() is None,
    {
        VtftkPlugin { state: State::new() }
    }

    /// The configuration that the plugin holds.
    pub fn state(&self) -> (r: &State<H>)
        ensures
            *r == self.config(),
    {
        &self.state
    }

    /// The host delivers the saved properties. Where they decode, the port
    /// becomes theirs, or the default one where they name none, and is
    /// returned. Where they do not, nothing changes and the error is
    /// returned for the caller to report.
    pub fn on_properties(&mut self, properties: Json) -> (r: Result<u16, DecodeError>)
        ensures
            final(self).config().current_inspector() == old(self).config().current_inspector(),
            match Properties::decoded(properties@) {
                Ok(saved) => r == Ok::<u16, DecodeError>(saved.port_or_default())
                    && final(self).config().current_port() == saved.port_or_default(),
                Err(e) => r == Err::<u16, DecodeError>(e) && final(self).config().current_port()
                    == old(self).config().current_port(),
            },
    {
        match Properties::decode(&properties) {
            Ok(saved) => {
                let port = match saved.port {
                    Some(port) => port,
                    None => DEFAULT_PORT,
                };
                self.state.set_port(port);
                Ok(port)
            },
            Err(e) => Err(e),
        }
    }

    /// A panel opened: it is the open panel from now on, whichever was.
    pub fn on_inspector_open(&mut self, inspector: H)
        ensures
            final(self).config().current_inspector() == Some(inspector),
            final(self).config().current_port() == old(self).config().current_port(),
    {
        self.state.set_inspector(Some(inspector));
    }

    /// A panel closed: no panel is open from now on. The last of an opening
    /// and a closing decides, whichever panel each was about.
    pub fn on_inspector_close(&mut self, _inspector: H)
        ensures
            final(self).config().current_inspector() is None,
            final(self).config().current_port() == old(self).config().current_port(),
    {
        self.state.set_inspector(None);
    }

    /// A tile was clicked. Nothing changes; the result says what is to be
    /// done, and a throw begins only where the tile names an item.
    pub fn on_tile_clicked(&self, action_id: &str, properties: Json) -> (r: Click)
        ensures
            r@ == clicked(self.config().current_port(), action_id@, properties@),
            action_id@ != "throw_item"@ ==> r == Click::Unknown,
    {
        match Action::from_action(action_id, properties) {
            None => Click::Unknown,
            Some(Err(e)) => Click::Malformed(e),
            Some(Ok(Action::ThrowItem(throw))) => match throw.item {
                None => Click::Nothing,
                Some(item) => {
                    let (pipeline, request) = ThrowPipeline::start(&self.state, item);
                    Click::Throw { pipeline, request }
                },
            },
        }
    }
}

impl<H: Clone> VtftkPlugin<H> {
    /// The panel sent a message. A message that does not decode is dropped.
    /// A request for the items is answered later, to the panel that is open
    /// now; a change of the port takes effect at once and is to be saved.
    pub fn on_inspector_message(&mut self, message: Json) -> (r: PanelStep<H>)
        ensures
            final(self).config().current_inspector() == old(self).config().current_inspector(),
            match InspectorMessageIn::decoded(message@) {
                Err(_) => r == PanelStep::<H>::Ignored && final(self).config().current_port()
                    == old(self).config().current_port(),
                Ok(InspectorMessageIn::GetItems) => {
                    &&& final(self).config().current_port() == old(self).config().current_port()
                    &&& r matches PanelStep::FetchItems { request, reply_to }
                    &&& request@ == items_request(old(self).config().current_port())
                    &&& match old(self).config().current_inspector() {
                        Some(open) => reply_to matches Some(panel) && cloned(open, panel),
                        None => reply_to is None,
                    }
                },
                Ok(InspectorMessageIn::PortChanged { port }) => {
                    &&& final(self).config().current_port() == port
                    &&& r == PanelStep::<H>::Persist(Properties { port: Some(port) })
                },
            },
    {
        match InspectorMessageIn::decode(&message) {
            Err(_) => PanelStep::Ignored,
            Ok(InspectorMessageIn::GetItems) => {
                let request = self.state.get_items();
                let reply_to = self.state.inspector().clone();
                PanelStep::FetchItems { request, reply_to }
            },
            Ok(InspectorMessageIn::PortChanged { port }) => {
                self.state.set_port(port);
                PanelStep::Persist(Properties { port: Some(port) })
            },
        }
    }
}

impl<H> Default for VtftkPlugin<H> {
    fn default() -> (r: Self)
        ensures
            r.config().current_port() == 8533,
            r.config().current_inspector() is None,
    {
        VtftkPlugin::new()
    }
}

} // verus!
