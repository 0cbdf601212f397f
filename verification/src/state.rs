//! The configuration that the plugin keeps: the port on which the companion
//! service listens and the panel that is open, if one is. It also builds the
//! requests of the four operations on the remote catalog, for the port it holds.

use vstd::prelude::*;
use crate::ident::Id;
use crate::json::{views, Json, JsonView};
use crate::models::{
    encode_throw_event, throw_event_document, ItemWithSounds, ItemWithSoundsView, QueryById,
};
use crate::request::{endpoint, endpoint_url, Method, Request, RequestView};

verus! {

/// The port on which the companion service listens until another is configured.
pub const DEFAULT_PORT: u16 = 8533;

/// The request that lists the items of the catalog.
pub open spec fn items_request(port: u16) -> RequestView {
    RequestView { method: Method::Get, url: endpoint(port, "/items"@), body: None }
}

/// The request that resolves items by their identifiers.
pub open spec fn item_query(port: u16, ids: Seq<Id>) -> RequestView {
    RequestView {
        method: Method::Post,
        url: endpoint(port, "/items/query-by-id"@),
        body: Some(QueryById::document(ids)),
    }
}

/// The request that resolves sounds by their identifiers.
pub open spec fn sound_query(port: u16, ids: Seq<Id>) -> RequestView {
    RequestView {
        method: Method::Post,
        url: endpoint(port, "/sounds/query-by-id"@),
        body: Some(QueryById::document(ids)),
    }
}

/// The request that publishes the overlay event of a throw.
pub open spec fn throw_request(
    port: u16,
    item: ItemWithSoundsView,
    sounds: Seq<JsonView>,
) -> RequestView {
    RequestView {
        method: Method::Post,
        url: endpoint(port, "/overlay/events"@),
        body: Some(throw_event_document(item, sounds)),
    }
}

/// The configuration of the plugin. `H` is the handle of a panel: the
/// library stores it and hands it back, and asks nothing of it.
///
/// One owner holds the state and every use reads it anew, so a change of the
/// port is seen by the next request that is built.
#[derive(Debug)]
pub struct State<H> {
    port: u16,
    inspector: Option<H>,
}

impl<H> State<H> {
    /// The port that requests are addressed to.
    pub closed spec fn current_port(&self) -> u16 {
        self.port
    }

    /// The panel that is open, if one is.
    pub closed spec fn current_inspector(&self) -> Option<H> {
        self.inspector
    }

    /// The state with its port replaced.
    pub closed spec fn with_port(self, port: u16) -> Self {
        State { port, inspector: self.inspector }
    }

    /// The state with its panel handle replaced.
    pub closed spec fn with_inspector(self, inspector: Option<H>) -> Self {
        State { port: self.port, inspector }
    }

    /// The last write wins. A port that was set is the port that is read,
    /// and of two handles set in a row the second is the one that is read;
    /// neither write touches what the other wrote.
    pub proof fn lemma_last_write_wins(
        self,
        port: u16,
        later_port: u16,
        first: Option<H>,
        second: Option<H>,
    )
        ensures
            self.with_port(port).current_port() == port,
            self.with_port(port).with_port(later_port).current_port() == later_port,
            self.with_inspector(first).with_inspector(second).current_inspector() == second,
            self.with_port(port).current_inspector() == self.current_inspector(),
            self.with_inspector(first).current_port() == self.current_port(),
    {
    }

    /// The state at start: the default port, and no panel.
    pub fn new() -> (r: Self)
        ensures
            r.current_port() == DEFAULT_PORT,
            r.current_port() == 8533,
            r.current_inspector() is None,
    {
        State { port: DEFAULT_PORT, inspector: None }
    }

    /// Replaces the panel handle. A handle that was there is dropped, not
    /// closed; the port stays.
    pub fn set_inspector(&mut self, inspector: Option<H>)
        ensures
            *final(self) == old(self).with_inspector(inspector),
            final(self).current_inspector() == inspector,
            final(self).current_port() == old(self).current_port(),
    {
        self.inspector = inspector;
    }

    /// Replaces the port, whatever it was; the panel stays.
    pub fn set_port(&mut self, port: u16)
        ensures
            *final(self) == old(self).with_port(port),
            final(self).current_port() == port,
            final(self).current_inspector() == old(self).current_inspector(),
    {
        self.port = port;
    }

    /// The port that requests are addressed to.
    pub fn port(&self) -> (r: u16)
        ensures
            r == self.current_port(),
    {
        self.port
    }

    /// The panel that is open, if one is.
    pub fn inspector(&self) -> (r: &Option<H>)
        ensures
            *r == self.current_inspector(),
    {
        &self.inspector
    }

    /// Builds the request that lists all items.
    pub fn get_items(&self) -> (r: Request)
        ensures
            r@ == items_request(self.current_port()),
    {
        Request { method: Method::Get, url: endpoint_url(self.port, "/items"), body: None }
    }

    /// Builds the request that resolves one item, with the sounds it lists.
    pub fn get_item_by_id(&self, item_id: Id) -> (r: Request)
        ensures
            r@ == item_query(self.current_port(), seq![item_id]),
    {
        let mut ids: Vec<Id> = Vec::new();
        ids.push(item_id);
        let query = QueryById { ids };
        Request {
            method: Method::Post,
            url: endpoint_url(self.port, "/items/query-by-id"),
            body: Some(query.encode()),
        }
    }

    /// Builds the request that resolves sounds, in the order given and as
    /// often as each is listed.
    pub fn get_sounds_by_id(&self, sound_ids: Vec<Id>) -> (r: Request)
        ensures
            r@ == sound_query(self.current_port(), sound_ids@),
    {
        let query = QueryById { ids: sound_ids };
        Request {
            method: Method::Post,
            url: endpoint_url(self.port, "/sounds/query-by-id"),
            body: Some(query.encode()),
        }
    }

    /// Builds the request that publishes the overlay event which throws
    /// `item_with_sound` once, with `sounds`.
    pub fn throw_item(&self, item_with_sound: ItemWithSounds, sounds: Vec<Json>) -> (r: Request)
        ensures
            r@ == throw_request(self.current_port(), item_with_sound@, views(sounds@)),
    {
        Request {
            method: Method::Post,
            url: endpoint_url(self.port, "/overlay/events"),
            body: Some(encode_throw_event(item_with_sound, sounds)),
        }
    }
}

impl<H> Default for State<H> {
    fn default() -> (r: Self)
        ensures
            r.current_port() == 8533,
            r.current_inspector() is None,
    {
        State::new()
    }
}

} // verus!
