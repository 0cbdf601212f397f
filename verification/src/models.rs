//! The shapes that travel between the plugin and the companion service.

use vstd::prelude::*;
use crate::error::DecodeError;
use crate::ident::{
    decode_id, decoded_id, encode_id, id_document, id_of_parsed, parse_uuid, parsed_uuid,
    uuid_text, Id,
};
use crate::json::{
    bool_field, decoded_all, field, find_present, lemma_decoded_all_fails, lemma_decoded_all_step,
    lemma_lookup_at, members_view, optional, push_member, read_bool, read_text, required,
    text_field, views, Json, JsonView,
};

verus! {

/// How the image of an item is shown.
#[derive(Debug, PartialEq)]
pub struct ItemImageConfig {
    /// Where the image comes from: a URL or a path.
    pub src: String,
    /// Whether the image is scaled without smoothing.
    pub pixelate: bool,
}

/// The mathematical value of an [`ItemImageConfig`].
pub struct ItemImageConfigView {
    pub src: Seq<char>,
    pub pixelate: bool,
}

impl View for ItemImageConfig {
    type V = ItemImageConfigView;

    open spec fn view(&self) -> ItemImageConfigView {
        ItemImageConfigView { src: self.src@, pixelate: self.pixelate }
    }
}

impl ItemImageConfigView {
    /// What a document decodes to: an object whose member `src` is a text and
    /// whose member `pixelate` is a boolean. Other members are passed over.
    pub open spec fn decoded(doc: JsonView) -> Result<ItemImageConfigView, DecodeError> {
        match doc.members() {
            Err(e) => Err(e),
            Ok(members) => match text_field(members, "src"@) {
                Err(e) => Err(e),
                Ok(src) => match bool_field(members, "pixelate"@) {
                    Err(e) => Err(e),
                    Ok(pixelate) => Ok(ItemImageConfigView { src, pixelate }),
                },
            },
        }
    }

    /// The document that stands for the value.
    pub open spec fn document(self) -> JsonView {
        JsonView::Object(
            seq![("src"@, JsonView::Text(self.src)), ("pixelate"@, JsonView::Bool(self.pixelate))],
        )
    }

    /// Decoding the document of a value gives the value back.
    pub proof fn lemma_round_trip(self)
        ensures
            Self::decoded(self.document()) == Ok::<_, DecodeError>(self),
    {
        reveal_strlit("src");
        reveal_strlit("pixelate");
        let members = self.document()->Object_0;
        assert("src"@.len() != "pixelate"@.len());
        lemma_lookup_at(members, "src"@, 0);
        lemma_lookup_at(members, "pixelate"@, 1);
    }
}

impl ItemImageConfig {
    /// Reads the value from a document.
    pub fn decode(doc: &Json) -> (r: Result<ItemImageConfig, DecodeError>)
        ensures
            ItemImageConfigView::decoded(doc@) == (match r {
                Ok(value) => Ok(value@),
                Err(e) => Err(e),
            }),
    {
        let members = match doc.members() {
            Ok(members) => members,
            Err(e) => return Err(e),
        };
        let src = match read_text(members, "src") {
            Ok(src) => src,
            Err(e) => return Err(e),
        };
        let pixelate = match read_bool(members, "pixelate") {
            Ok(pixelate) => pixelate,
            Err(e) => return Err(e),
        };
        Ok(ItemImageConfig { src, pixelate })
    }

    /// Writes the value as a document, from which `decode` reads it back.
    pub fn encode(&self) -> (r: Json)
        ensures
            r@ == self@.document(),
            ItemImageConfigView::decoded(r@) == Ok::<_, DecodeError>(self@),
    {
        let mut members: Vec<(String, Json)> = Vec::new();
        push_member(&mut members, "src", Json::Text(self.src.clone()));
        push_member(&mut members, "pixelate", Json::Bool(self.pixelate));
        proof {
            assert(members_view(members@) =~= self@.document()->Object_0);
            self@.lemma_round_trip();
        }
        Json::object(members)
    }
}

/// The configuration of an item.
#[derive(Debug, PartialEq)]
pub struct ItemConfig {
    pub image: ItemImageConfig,
}

/// The mathematical value of an [`ItemConfig`].
pub struct ItemConfigView {
    pub image: ItemImageConfigView,
}

impl View for ItemConfig {
    type V = ItemConfigView;

    open spec fn view(&self) -> ItemConfigView {
        ItemConfigView { image: self.image@ }
    }
}

impl ItemConfigView {
    /// What a document decodes to: an object whose member `image` decodes to
    /// an image configuration.
    pub open spec fn decoded(doc: JsonView) -> Result<ItemConfigView, DecodeError> {
        match doc.members() {
            Err(e) => Err(e),
            Ok(members) => match required(members, "image"@) {
                Err(e) => Err(e),
                Ok(image_doc) => match ItemImageConfigView::decoded(image_doc) {
                    Err(e) => Err(e),
                    Ok(image) => Ok(ItemConfigView { image }),
                },
            },
        }
    }

    /// The document that stands for the value.
    pub open spec fn document(self) -> JsonView {
        JsonView::Object(seq![("image"@, self.image.document())])
    }

    /// Decoding the document of a value gives the value back.
    pub proof fn lemma_round_trip(self)
        ensures
            Self::decoded(self.document()) == Ok::<_, DecodeError>(self),
    {
        let members = self.document()->Object_0;
        lemma_lookup_at(members, "image"@, 0);
        self.image.lemma_round_trip();
    }
}

impl ItemConfig {
    /// Reads the value from a document.
    pub fn decode(doc: &Json) -> (r: Result<ItemConfig, DecodeError>)
        ensures
            ItemConfigView::decoded(doc@) == (match r {
                Ok(value) => Ok(value@),
                Err(e) => Err(e),
            }),
    {
        let members = match doc.members() {
            Ok(members) => members,
            Err(e) => return Err(e),
        };
        let image_doc = match field(members, "image") {
            Ok(image_doc) => image_doc,
            Err(e) => return Err(e),
        };
        match ItemImageConfig::decode(image_doc) {
            Ok(image) => Ok(ItemConfig { image }),
            Err(e) => Err(e),
        }
    }

    /// Writes the value as a document, from which `decode` reads it back.
    pub fn encode(&self) -> (r: Json)
        ensures
            r@ == self@.document(),
            ItemConfigView::decoded(r@) == Ok::<_, DecodeError>(self@),
    {
        let mut members: Vec<(String, Json)> = Vec::new();
        push_member(&mut members, "image", self.image.encode());
        proof {
            assert(members_view(members@) =~= self@.document()->Object_0);
            self@.lemma_round_trip();
        }
        Json::object(members)
    }
}

/// The identifier held by a required member.
pub open spec fn id_field(members: Seq<(Seq<char>, JsonView)>, key: Seq<char>) -> Result<
    Id,
    DecodeError,
> {
    match required(members, key) {
        Ok(value) => decoded_id(value),
        Err(e) => Err(e),
    }
}

/// Reads the identifier held by a required member.
pub fn read_id(members: &Vec<(String, Json)>, key: &str) -> (r: Result<Id, DecodeError>)
    ensures
        r == id_field(members_view(members@), key@),
{
    match field(members, key) {
        Ok(value) => decode_id(value),
        Err(e) => Err(e),
    }
}

/// An item of the catalog, as the configuration panel lists it.
#[derive(Debug, PartialEq)]
pub struct ItemModel {
    pub id: Id,
    pub name: String,
    pub config: ItemConfig,
}

/// The mathematical value of an [`ItemModel`].
pub struct ItemModelView {
    pub id: Id,
    pub name: Seq<char>,
    pub config: ItemConfigView,
}

impl View for ItemModel {
    type V = ItemModelView;

    open spec fn view(&self) -> ItemModelView {
        ItemModelView { id: self.id, name: self.name@, config: self.config@ }
    }
}

impl ItemModelView {
    /// What a document decodes to: an object whose member `id` is the text of
    /// an identifier, whose member `name` is a text and whose member `config`
    /// decodes to an item configuration.
    pub open spec fn decoded(doc: JsonView) -> Result<ItemModelView, DecodeError> {
        match doc.members() {
            Err(e) => Err(e),
            Ok(members) => match id_field(members, "id"@) {
                Err(e) => Err(e),
                Ok(id) => match text_field(members, "name"@) {
                    Err(e) => Err(e),
                    Ok(name) => match required(members, "config"@) {
                        Err(e) => Err(e),
                        Ok(config_doc) => match ItemConfigView::decoded(config_doc) {
                            Err(e) => Err(e),
                            Ok(config) => Ok(ItemModelView { id, name, config }),
                        },
                    },
                },
            },
        }
    }

    /// The document that stands for the value.
    pub open spec fn document(self) -> JsonView {
        JsonView::Object(
            seq![
                ("id"@, id_document(self.id)),
                ("name"@, JsonView::Text(self.name)),
                ("config"@, self.config.document()),
            ],
        )
    }

    /// Decoding the document of an item gives the item back, whatever its name
    /// and flags, provided the text of its identifier reads as that identifier.
    pub proof fn lemma_round_trip(self)
        requires
            parsed_uuid(uuid_text(self.id)) == Some(self.id),
        ensures
            Self::decoded(self.document()) == Ok::<_, DecodeError>(self),
    {
        reveal_strlit("id");
        reveal_strlit("name");
        reveal_strlit("config");
        let members = self.document()->Object_0;
        assert("name"@.len() != "config"@.len());
        lemma_lookup_at(members, "id"@, 0);
        lemma_lookup_at(members, "name"@, 1);
        lemma_lookup_at(members, "config"@, 2);
        self.config.lemma_round_trip();
    }
}

/// The decoder of one listed item, as a value.
pub open spec fn item_decoder() -> spec_fn(JsonView) -> Result<ItemModelView, DecodeError> {
    |doc: JsonView| ItemModelView::decoded(doc)
}

/// What the body of an item listing decodes to: an array of items.
pub open spec fn decoded_items(doc: JsonView) -> Result<Seq<ItemModelView>, DecodeError> {
    match doc.items() {
        Err(e) => Err(e),
        Ok(items) => decoded_all(items, item_decoder()),
    }
}

/// The documents of a sequence of items, one for one.
pub open spec fn item_documents(items: Seq<ItemModelView>) -> Seq<JsonView> {
    Seq::new(items.len(), |i: int| items[i].document())
}

impl ItemModel {
    /// Reads an item from a document.
    pub fn decode(doc: &Json) -> (r: Result<ItemModel, DecodeError>)
        ensures
            ItemModelView::decoded(doc@) == (match r {
                Ok(value) => Ok(value@),
                Err(e) => Err(e),
            }),
    {
        let members = match doc.members() {
            Ok(members) => members,
            Err(e) => return Err(e),
        };
        let id = match read_id(members, "id") {
            Ok(id) => id,
            Err(e) => return Err(e),
        };
        let name = match read_text(members, "name") {
            Ok(name) => name,
            Err(e) => return Err(e),
        };
        let config_doc = match field(members, "config") {
            Ok(config_doc) => config_doc,
            Err(e) => return Err(e),
        };
        match ItemConfig::decode(config_doc) {
            Ok(config) => Ok(ItemModel { id, name, config }),
            Err(e) => Err(e),
        }
    }

    /// Writes an item as a document. Decoding that document gives the item
    /// back: the two are inverse on every item.
    pub fn encode(&self) -> (r: Json)
        ensures
            r@ == self@.document(),
            ItemModelView::decoded(r@) == Ok::<_, DecodeError>(self@),
    {
        let mut members: Vec<(String, Json)> = Vec::new();
        push_member(&mut members, "id", encode_id(self.id));
        push_member(&mut members, "name", Json::Text(self.name.clone()));
        push_member(&mut members, "config", self.config.encode());
        proof {
            assert(members_view(members@) =~= self@.document()->Object_0);
            self@.lemma_round_trip();
        }
        Json::object(members)
    }

    /// Reads the body of an item listing: an array of items, in its order.
    pub fn decode_list(doc: &Json) -> (r: Result<Vec<ItemModel>, DecodeError>)
        ensures
            decoded_items(doc@) == (match r {
                Ok(items) => Ok(views(items@)),
                Err(e) => Err(e),
            }),
    {
        let docs = match doc.items() {
            Ok(docs) => docs,
            Err(e) => return Err(e),
        };
        let ghost all = views(docs@);
        let mut out: Vec<ItemModel> = Vec::new();
        let mut i: usize = 0;
        assert(views(out@) =~= Seq::<ItemModelView>::empty());
        while i < docs.len()
            invariant
                i <= docs.len(),
                all == views(docs@),
                doc@.items() == Ok::<_, DecodeError>(all),
                decoded_all(all.take(i as int), item_decoder()) == Ok::<_, DecodeError>(
                    views(out@),
                ),
            decreases docs.len() - i,
        {
            proof {
                lemma_decoded_all_step(all, item_decoder(), i as int);
            }
            let ghost before = views(out@);
            match ItemModel::decode(&docs[i]) {
                Ok(item) => {
                    out.push(item);
                    assert(views(out@) =~= before.push(item@));
                },
                Err(e) => {
                    proof {
                        lemma_decoded_all_fails(all, item_decoder(), i + 1);
                    }
                    return Err(e);
                },
            }
            i += 1;
        }
        assert(all.take(i as int) =~= all);
        Ok(out)
    }

    /// Writes a sequence of items as an array of their documents.
    pub fn encode_list(items: &Vec<ItemModel>) -> (r: Json)
        ensures
            r@ == JsonView::Array(item_documents(views(items@))),
    {
        let mut docs: Vec<Json> = Vec::new();
        let mut i: usize = 0;
        while i < items.len()
            invariant
                i <= items.len(),
                docs.len() == i,
                forall|k: int| 0 <= k < i ==> docs[k]@ == items[k]@.document(),
            decreases items.len() - i,
        {
            docs.push(items[i].encode());
            i += 1;
        }
        assert(views(docs@) =~= item_documents(views(items@)));
        Json::array(docs)
    }
}

/// The decoder of one identifier, as a value.
pub open spec fn id_decoder() -> spec_fn(JsonView) -> Result<Id, DecodeError> {
    |doc: JsonView| decoded_id(doc)
}

/// The identifiers that a document lists: an array of identifier texts.
pub open spec fn decoded_ids(doc: JsonView) -> Result<Seq<Id>, DecodeError> {
    match doc.items() {
        Err(e) => Err(e),
        Ok(items) => decoded_all(items, id_decoder()),
    }
}

/// The documents of a sequence of identifiers, one for one.
pub open spec fn id_documents(ids: Seq<Id>) -> Seq<JsonView> {
    Seq::new(ids.len(), |i: int| id_document(ids[i]))
}

/// Reads a list of identifiers, in its order.
pub fn decode_ids(doc: &Json) -> (r: Result<Vec<Id>, DecodeError>)
    ensures
        decoded_ids(doc@) == (match r {
            Ok(ids) => Ok(ids@),
            Err(e) => Err(e),
        }),
{
    let docs = match doc.items() {
        Ok(docs) => docs,
        Err(e) => return Err(e),
    };
    let ghost all = views(docs@);
    let mut out: Vec<Id> = Vec::new();
    let mut i: usize = 0;
    while i < docs.len()
        invariant
            i <= docs.len(),
            all == views(docs@),
            doc@.items() == Ok::<_, DecodeError>(all),
            decoded_all(all.take(i as int), id_decoder()) == Ok::<_, DecodeError>(out@),
        decreases docs.len() - i,
    {
        proof {
            lemma_decoded_all_step(all, id_decoder(), i as int);
        }
        match decode_id(&docs[i]) {
            Ok(id) => {
                out.push(id);
            },
            Err(e) => {
                proof {
                    lemma_decoded_all_fails(all, id_decoder(), i + 1);
                }
                return Err(e);
            },
        }
        i += 1;
    }
    assert(all.take(i as int) =~= all);
    Ok(out)
}

/// Writes a list of identifiers as an array of their texts, in its order.
pub fn encode_ids(ids: &Vec<Id>) -> (r: Json)
    ensures
        r@ == JsonView::Array(id_documents(ids@)),
{
    let mut docs: Vec<Json> = Vec::new();
    let mut i: usize = 0;
    while i < ids.len()
        invariant
            i <= ids.len(),
            docs.len() == i,
            forall|k: int| 0 <= k < i ==> docs[k]@ == id_document(ids[k]),
        decreases ids.len() - i,
    {
        docs.push(encode_id(ids[i]));
        i += 1;
    }
    assert(views(docs@) =~= id_documents(ids@));
    Json::array(docs)
}

/// An item resolved for throwing: its identifier, its configuration as the
/// service gave it, and the sounds of its impact and of its windup.
#[derive(Debug, PartialEq)]
pub struct ItemWithSounds {
    pub id: Id,
    /// Passed on as it came; the library never looks into it.
    pub config: Json,
    pub impact_sounds_ids: Vec<Id>,
    pub windup_sounds_ids: Vec<Id>,
}

/// The mathematical value of an [`ItemWithSounds`].
pub struct ItemWithSoundsView {
    pub id: Id,
    pub config: JsonView,
    pub impact_sounds_ids: Seq<Id>,
    pub windup_sounds_ids: Seq<Id>,
}

impl View for ItemWithSounds {
    type V = ItemWithSoundsView;

    open spec fn view(&self) -> ItemWithSoundsView {
        ItemWithSoundsView {
            id: self.id,
            config: self.config@,
            impact_sounds_ids: self.impact_sounds_ids@,
            windup_sounds_ids: self.windup_sounds_ids@,
        }
    }
}

/// The identifiers listed by a required member.
pub open spec fn ids_field(members: Seq<(Seq<char>, JsonView)>, key: Seq<char>) -> Result<
    Seq<Id>,
    DecodeError,
> {
    match required(members, key) {
        Ok(value) => decoded_ids(value),
        Err(e) => Err(e),
    }
}

/// Reads the identifiers listed by a required member.
pub fn read_ids(members: &Vec<(String, Json)>, key: &str) -> (r: Result<Vec<Id>, DecodeError>)
    ensures
        ids_field(members_view(members@), key@) == (match r {
            Ok(ids) => Ok(ids@),
            Err(e) => Err(e),
        }),
{
    match field(members, key) {
        Ok(value) => decode_ids(value),
        Err(e) => Err(e),
    }
}

impl ItemWithSoundsView {
    /// What a document of the service decodes to: an object whose member `id`
    /// is the text of an identifier, whose member `config` is any document,
    /// and whose members `impact_sounds_ids` and `windup_sounds_ids` list
    /// identifiers.
    pub open spec fn decoded(doc: JsonView) -> Result<ItemWithSoundsView, DecodeError> {
        match doc.members() {
            Err(e) => Err(e),
            Ok(members) => match id_field(members, "id"@) {
                Err(e) => Err(e),
                Ok(id) => match required(members, "config"@) {
                    Err(e) => Err(e),
                    Ok(config) => match ids_field(members, "impact_sounds_ids"@) {
                        Err(e) => Err(e),
                        Ok(impact_sounds_ids) => match ids_field(members, "windup_sounds_ids"@) {
                            Err(e) => Err(e),
                            Ok(windup_sounds_ids) => Ok(
                                ItemWithSoundsView {
                                    id,
                                    config,
                                    impact_sounds_ids,
                                    windup_sounds_ids,
                                },
                            ),
                        },
                    },
                },
            },
        }
    }

    /// The sounds to fetch for a throw: those of the impact, then those of the
    /// windup, each as often as it is listed.
    pub open spec fn sound_ids(self) -> Seq<Id> {
        self.impact_sounds_ids + self.windup_sounds_ids
    }

    /// The document that stands for the item inside an overlay event. The two
    /// lists go out under the names that the overlay reads.
    pub open spec fn thrown_document(self) -> JsonView {
        JsonView::Object(
            seq![
                ("id"@, id_document(self.id)),
                ("config"@, self.config),
                ("impact_sound_ids"@, JsonView::Array(id_documents(self.impact_sounds_ids))),
                ("windup_sound_ids"@, JsonView::Array(id_documents(self.windup_sounds_ids))),
            ],
        )
    }
}

/// The decoder of one resolved item, as a value.
pub open spec fn resolved_decoder() -> spec_fn(JsonView) -> Result<
    ItemWithSoundsView,
    DecodeError,
> {
    |doc: JsonView| ItemWithSoundsView::decoded(doc)
}

/// What the body of an item resolution decodes to: an array of resolved items.
pub open spec fn decoded_resolution(doc: JsonView) -> Result<Seq<ItemWithSoundsView>, DecodeError> {
    match doc.items() {
        Err(e) => Err(e),
        Ok(items) => decoded_all(items, resolved_decoder()),
    }
}

impl ItemWithSounds {
    /// Reads a resolved item from a document of the service.
    pub fn decode(doc: &Json) -> (r: Result<ItemWithSounds, DecodeError>)
        ensures
            ItemWithSoundsView::decoded(doc@) == (match r {
                Ok(value) => Ok(value@),
                Err(e) => Err(e),
            }),
    {
        let members = match doc.members() {
            Ok(members) => members,
            Err(e) => return Err(e),
        };
        let id = match read_id(members, "id") {
            Ok(id) => id,
            Err(e) => return Err(e),
        };
        let config = match field(members, "config") {
            Ok(config) => config.clone(),
            Err(e) => return Err(e),
        };
        let impact_sounds_ids = match read_ids(members, "impact_sounds_ids") {
            Ok(ids) => ids,
            Err(e) => return Err(e),
        };
        let windup_sounds_ids = match read_ids(members, "windup_sounds_ids") {
            Ok(ids) => ids,
            Err(e) => return Err(e),
        };
        Ok(ItemWithSounds { id, config, impact_sounds_ids, windup_sounds_ids })
    }

    /// Reads the body of an item resolution: an array of resolved items.
    pub fn decode_list(doc: &Json) -> (r: Result<Vec<ItemWithSounds>, DecodeError>)
        ensures
            decoded_resolution(doc@) == (match r {
                Ok(items) => Ok(views(items@)),
                Err(e) => Err(e),
            }),
    {
        let docs = match doc.items() {
            Ok(docs) => docs,
            Err(e) => return Err(e),
        };
        let ghost all = views(docs@);
        let mut out: Vec<ItemWithSounds> = Vec::new();
        let mut i: usize = 0;
        assert(views(out@) =~= Seq::<ItemWithSoundsView>::empty());
        while i < docs.len()
            invariant
                i <= docs.len(),
                all == views(docs@),
                doc@.items() == Ok::<_, DecodeError>(all),
                decoded_all(all.take(i as int), resolved_decoder()) == Ok::<_, DecodeError>(
                    views(out@),
                ),
            decreases docs.len() - i,
        {
            proof {
                lemma_decoded_all_step(all, resolved_decoder(), i as int);
                assert(resolved_decoder()(all[i as int]) == ItemWithSoundsView::decoded(
                    all[i as int],
                ));
            }
            let ghost before = views(out@);
            match ItemWithSounds::decode(&docs[i]) {
                Ok(item) => {
                    out.push(item);
                    assert(views(out@) =~= before.push(item@));
                },
                Err(e) => {
                    proof {
                        lemma_decoded_all_fails(all, resolved_decoder(), i + 1);
                    }
                    return Err(e);
                },
            }
            i += 1;
        }
        assert(all.take(i as int) =~= all);
        Ok(out)
    }

    /// The sounds to fetch for a throw: those of the impact, then those of the
    /// windup. Order and repetitions are kept, so that a sound listed in both
    /// is fetched twice.
    pub fn sound_ids(&self) -> (r: Vec<Id>)
        ensures
            r@ == self@.sound_ids(),
            r@ == self.impact_sounds_ids@ + self.windup_sounds_ids@,
            r@.len() == self.impact_sounds_ids@.len() + self.windup_sounds_ids@.len(),
    {
        let mut out: Vec<Id> = Vec::new();
        let mut i: usize = 0;
        while i < self.impact_sounds_ids.len()
            invariant
                i <= self.impact_sounds_ids.len(),
                out@ == self.impact_sounds_ids@.take(i as int),
            decreases self.impact_sounds_ids.len() - i,
        {
            out.push(self.impact_sounds_ids[i]);
            i += 1;
        }
        let mut j: usize = 0;
        while j < self.windup_sounds_ids.len()
            invariant
                j <= self.windup_sounds_ids.len(),
                out@ == self.impact_sounds_ids@ + self.windup_sounds_ids@.take(j as int),
            decreases self.windup_sounds_ids.len() - j,
        {
            out.push(self.windup_sounds_ids[j]);
            j += 1;
        }
        out
    }

    /// Writes the item as it stands inside an overlay event.
    pub fn encode_thrown(self) -> (r: Json)
        ensures
            r@ == self@.thrown_document(),
    {
        let mut members: Vec<(String, Json)> = Vec::new();
        push_member(&mut members, "id", encode_id(self.id));
        let impact = encode_ids(&self.impact_sounds_ids);
        let windup = encode_ids(&self.windup_sounds_ids);
        push_member(&mut members, "config", self.config);
        push_member(&mut members, "impact_sound_ids", impact);
        push_member(&mut members, "windup_sound_ids", windup);
        assert(members_view(members@) =~= self@.thrown_document()->Object_0);
        Json::object(members)
    }
}

/// The request to resolve identifiers: the body of both query operations.
#[derive(Debug, PartialEq)]
pub struct QueryById {
    pub ids: Vec<Id>,
}

impl QueryById {
    /// The document that asks for the given identifiers, in their order.
    pub open spec fn document(ids: Seq<Id>) -> JsonView {
        JsonView::Object(seq![("ids"@, JsonView::Array(id_documents(ids)))])
    }

    /// Writes the request as a document.
    pub fn encode(&self) -> (r: Json)
        ensures
            r@ == Self::document(self.ids@),
    {
        let mut members: Vec<(String, Json)> = Vec::new();
        push_member(&mut members, "ids", encode_ids(&self.ids));
        assert(members_view(members@) =~= Self::document(self.ids@)->Object_0);
        Json::object(members)
    }
}

/// The properties of a tile that throws an item.
#[derive(Clone, Copy, Debug, PartialEq, Eq, Structural)]
pub struct ThrowItemProperties {
    /// The item to throw; a tile that names none throws nothing.
    pub item: Option<Id>,
}

impl ThrowItemProperties {
    /// The text under which a document names its item: the member `item` of
    /// an object, where it is there and not `null`. It must be a text.
    pub open spec fn item_text(doc: JsonView) -> Result<Option<Seq<char>>, DecodeError> {
        match doc.members() {
            Err(e) => Err(e),
            Ok(members) => match optional(members, "item"@) {
                None => Ok(None),
                Some(value) => match value.text() {
                    Ok(text) => Ok(Some(text)),
                    Err(e) => Err(e),
                },
            },
        }
    }

    /// What a document decodes to: an object whose member `item`, where it is
    /// there and not `null`, is the text of an identifier. Other members are
    /// passed over.
    pub open spec fn decoded(doc: JsonView) -> Result<ThrowItemProperties, DecodeError> {
        match Self::item_text(doc) {
            Err(e) => Err(e),
            Ok(None) => Ok(ThrowItemProperties { item: None }),
            Ok(Some(text)) => match parsed_uuid(text) {
                Some(id) => Ok(ThrowItemProperties { item: Some(id) }),
                None => Err(DecodeError::InvalidUuid),
            },
        }
    }

    /// Reads the text under which a document names its item.
    pub fn read_item_text(doc: &Json) -> (r: Result<Option<&String>, DecodeError>)
        ensures
            Self::item_text(doc@) == (match r {
                Ok(Some(text)) => Ok(Some(text@)),
                Ok(None) => Ok(None),
                Err(e) => Err(e),
            }),
    {
        let members = match doc.members() {
            Ok(members) => members,
            Err(e) => return Err(e),
        };
        match find_present(members, "item") {
            None => Ok(None),
            Some(value) => match value.text() {
                Ok(text) => Ok(Some(text)),
                Err(e) => Err(e),
            },
        }
    }

    /// The properties of a tile, given what the text of its item was read
    /// as. `None` says that the tile names no item; `Some(None)`, that it
    /// names one by a text that denotes no identifier, which is a fault;
    /// `Some(Some(id))`, that it names the item `id`.
    pub fn from_parsed(parsed: Option<Option<Id>>) -> (r: Result<ThrowItemProperties, DecodeError>)
        ensures
            r == (match parsed {
                None => Ok::<ThrowItemProperties, DecodeError>(ThrowItemProperties { item: None }),
                Some(Some(id)) => Ok(ThrowItemProperties { item: Some(id) }),
                Some(None) => Err(DecodeError::InvalidUuid),
            }),
    {
        match parsed {
            None => Ok(ThrowItemProperties { item: None }),
            Some(read) => match id_of_parsed(read) {
                Ok(id) => Ok(ThrowItemProperties { item: Some(id) }),
                Err(e) => Err(e),
            },
        }
    }

    /// Reads the properties from a document.
    pub fn decode(doc: &Json) -> (r: Result<ThrowItemProperties, DecodeError>)
        ensures
            r == Self::decoded(doc@),
    {
        match Self::read_item_text(doc) {
            Err(e) => Err(e),
            Ok(None) => Self::from_parsed(None),
            Ok(Some(text)) => Self::from_parsed(Some(parse_uuid(text.as_str()))),
        }
    }
}

/// The overlay event that throws one item once, with the sounds fetched for it.
pub open spec fn throw_event_document(item: ItemWithSoundsView, sounds: Seq<JsonView>) -> JsonView {
    JsonView::Object(
        seq![
            ("type"@, JsonView::Text("ThrowItem"@)),
            (
                "items"@,
                JsonView::Object(
                    seq![
                        ("items"@, JsonView::Array(seq![item.thrown_document()])),
                        ("sounds"@, JsonView::Array(sounds)),
                    ],
                ),
            ),
            (
                "config"@,
                JsonView::Object(
                    seq![("type"@, JsonView::Text("All"@)), ("amount"@, JsonView::Integer(1))],
                ),
            ),
        ],
    )
}

/// Writes the overlay event that throws `item` once with `sounds`.
pub fn encode_throw_event(item: ItemWithSounds, sounds: Vec<Json>) -> (r: Json)
    ensures
        r@ == throw_event_document(item@, views(sounds@)),
{
    let ghost item_view = item@;
    let mut thrown: Vec<Json> = Vec::new();
    thrown.push(item.encode_thrown());
    assert(views(thrown@) =~= seq![item_view.thrown_document()]);

    let mut items: Vec<(String, Json)> = Vec::new();
    push_member(&mut items, "items", Json::array(thrown));
    push_member(&mut items, "sounds", Json::array(sounds));
    assert(members_view(items@) =~= seq![
        ("items"@, JsonView::Array(seq![item_view.thrown_document()])),
        ("sounds"@, JsonView::Array(views(sounds@))),
    ]);

    let mut config: Vec<(String, Json)> = Vec::new();
    push_member(&mut config, "type", Json::text_of("All"));
    push_member(&mut config, "amount", Json::Integer(1));
    assert(members_view(config@) =~= seq![
        ("type"@, JsonView::Text("All"@)),
        ("amount"@, JsonView::Integer(1)),
    ]);

    let mut members: Vec<(String, Json)> = Vec::new();
    push_member(&mut members, "type", Json::text_of("ThrowItem"));
    push_member(&mut members, "items", Json::object(items));
    push_member(&mut members, "config", Json::object(config));
    assert(members_view(members@) =~= throw_event_document(item_view, views(sounds@))->Object_0);
    Json::object(members)
}

} // verus!
