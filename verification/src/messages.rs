//! The messages exchanged with the configuration panel.

use vstd::prelude::*;
use crate::error::DecodeError;
use crate::json::{
    field, lemma_lookup_at, members_view, push_member, read_text, required, same_text, text_field,
    views, Json, JsonView,
};
use crate::models::{item_documents, ItemModel, ItemModelView};

verus! {

/// A message from the panel.
#[derive(Clone, Copy, Debug, PartialEq, Eq, Structural)]
pub enum InspectorMessageIn {
    /// The panel asks for the items of the catalog.
    GetItems,
    /// The panel names the port on which the companion service listens.
    PortChanged { port: u16 },
}

/// The port held by a required member: a whole number of sixteen bits.
pub open spec fn port_field(members: Seq<(Seq<char>, JsonView)>, key: Seq<char>) -> Result<
    u16,
    DecodeError,
> {
    match required(members, key) {
        Ok(value) => value.small_unsigned(),
        Err(e) => Err(e),
    }
}

/// Reads the port held by a required member.
pub fn read_port(members: &Vec<(String, Json)>, key: &str) -> (r: Result<u16, DecodeError>)
    ensures
        r == port_field(members_view(members@), key@),
{
    match field(members, key) {
        Ok(value) => value.small_unsigned(),
        Err(e) => Err(e),
    }
}

impl InspectorMessageIn {
    /// What a document decodes to: an object whose member `type` names the
    /// kind of message. `GET_ITEMS` has no other member to read; a
    /// `PORT_CHANGED` holds the port in its member `port`.
    pub open spec fn decoded(doc: JsonView) -> Result<InspectorMessageIn, DecodeError> {
        match doc.members() {
            Err(e) => Err(e),
            Ok(members) => match text_field(members, "type"@) {
                Err(e) => Err(e),
                Ok(tag) => if tag == "GET_ITEMS"@ {
                    Ok(InspectorMessageIn::GetItems)
                } else if tag == "PORT_CHANGED"@ {
                    match port_field(members, "port"@) {
                        Ok(port) => Ok(InspectorMessageIn::PortChanged { port }),
                        Err(e) => Err(e),
                    }
                } else {
                    Err(DecodeError::UnknownVariant)
                },
            },
        }
    }

    /// The document that stands for the message.
    pub open spec fn document(self) -> JsonView {
        match self {
            InspectorMessageIn::GetItems => JsonView::Object(
                seq![("type"@, JsonView::Text("GET_ITEMS"@))],
            ),
            InspectorMessageIn::PortChanged { port } => JsonView::Object(
                seq![
                    ("type"@, JsonView::Text("PORT_CHANGED"@)),
                    ("port"@, JsonView::Integer(port as int)),
                ],
            ),
        }
    }

    /// Decoding the document of a message gives the message back.
    pub proof fn lemma_round_trip(self)
        ensures
            Self::decoded(self.document()) == Ok::<_, DecodeError>(self),
    {
        reveal_strlit("type");
        reveal_strlit("port");
        reveal_strlit("GET_ITEMS");
        reveal_strlit("PORT_CHANGED");
        let members = self.document()->Object_0;
        assert("GET_ITEMS"@.len() != "PORT_CHANGED"@.len());
        assert("type"@[0] != "port"@[0]);
        lemma_lookup_at(members, "type"@, 0);
        if self is PortChanged {
            lemma_lookup_at(members, "port"@, 1);
        }
    }

    /// Reads a message of the panel from a document.
    pub fn decode(doc: &Json) -> (r: Result<InspectorMessageIn, DecodeError>)
        ensures
            r == Self::decoded(doc@),
    {
        let members = match doc.members() {
            Ok(members) => members,
            Err(e) => return Err(e),
        };
        let tag = match read_text(members, "type") {
            Ok(tag) => tag,
            Err(e) => return Err(e),
        };
        if same_text(tag.as_str(), "GET_ITEMS") {
            Ok(InspectorMessageIn::GetItems)
        } else if same_text(tag.as_str(), "PORT_CHANGED") {
            match read_port(members, "port") {
                Ok(port) => Ok(InspectorMessageIn::PortChanged { port }),
                Err(e) => Err(e),
            }
        } else {
            Err(DecodeError::UnknownVariant)
        }
    }

    /// Writes the message as a document, from which `decode` reads it back.
    pub fn encode(&self) -> (r: Json)
        ensures
            r@ == self.document(),
            Self::decoded(r@) == Ok::<_, DecodeError>(*self),
    {
        let mut members: Vec<(String, Json)> = Vec::new();
        match self {
            InspectorMessageIn::GetItems => {
                push_member(&mut members, "type", Json::text_of("GET_ITEMS"));
            },
            InspectorMessageIn::PortChanged { port } => {
                push_member(&mut members, "type", Json::text_of("PORT_CHANGED"));
                push_member(&mut members, "port", Json::Integer(*port as i128));
            },
        }
        proof {
            assert(members_view(members@) =~= self.document()->Object_0);
            self.lemma_round_trip();
        }
        Json::object(members)
    }
}

/// A message to the panel.
#[derive(Debug, PartialEq)]
pub enum InspectorMessageOut {
    /// The items of the catalog, as the service listed them.
    Items { items: Vec<ItemModel> },
}

/// The mathematical value of an [`InspectorMessageOut`].
pub enum InspectorMessageOutView {
    Items { items: Seq<ItemModelView> },
}

impl View for InspectorMessageOut {
    type V = InspectorMessageOutView;

    open spec fn view(&self) -> InspectorMessageOutView {
        match self {
            InspectorMessageOut::Items { items } => InspectorMessageOutView::Items {
                items: views(items@),
            },
        }
    }
}

impl InspectorMessageOutView {
    /// The document that stands for the message.
    pub open spec fn document(self) -> JsonView {
        match self {
            InspectorMessageOutView::Items { items } => JsonView::Object(
                seq![
                    ("type"@, JsonView::Text("ITEMS"@)),
                    ("items"@, JsonView::Array(item_documents(items))),
                ],
            ),
        }
    }
}

impl InspectorMessageOut {
    /// Writes the message as a document.
    pub fn encode(&self) -> (r: Json)
        ensures
            r@ == self@.document(),
    {
        let mut members: Vec<(String, Json)> = Vec::new();
        match self {
            InspectorMessageOut::Items { items } => {
                push_member(&mut members, "type", Json::text_of("ITEMS"));
                push_member(&mut members, "items", ItemModel::encode_list(items));
            },
        }
        assert(members_view(members@) =~= self@.document()->Object_0);
        Json::object(members)
    }
}

} // verus!
