//! HTTP exchanges with the companion service, as plain values: what to send,
//! and what came back.

use vstd::prelude::*;
use vstd::string::*;
use crate::error::{DecodeError, FetchError};
use crate::json::{views, Json, JsonView};
use crate::models::{
    decoded_items, decoded_resolution, ItemModel, ItemModelView, ItemWithSounds, ItemWithSoundsView,
};

verus! {

/// The decimal digit that stands for a number below ten.
pub open spec fn digit(d: int) -> char {
    if d == 0 {
        '0'
    } else if d == 1 {
        '1'
    } else if d == 2 {
        '2'
    } else if d == 3 {
        '3'
    } else if d == 4 {
        '4'
    } else if d == 5 {
        '5'
    } else if d == 6 {
        '6'
    } else if d == 7 {
        '7'
    } else if d == 8 {
        '8'
    } else {
        '9'
    }
}

/// A number in decimal digits, without leading zeros.
pub open spec fn decimal(n: nat) -> Seq<char>
    decreases n,
{
    if n < 10 {
        seq![digit(n as int)]
    } else {
        decimal(n / 10).push(digit((n % 10) as int))
    }
}

/// The address of an endpoint of the service that listens on `port`.
pub open spec fn endpoint(port: u16, path: Seq<char>) -> Seq<char> {
    "http://127.0.0.1:"@ + decimal(port as nat) + path
}

fn digit_text(d: u16) -> (r: &'static str)
    requires
        d < 10,
    ensures
        r@ == seq![digit(d as int)],
{
    proof {
        reveal_strlit("0");
        reveal_strlit("1");
        reveal_strlit("2");
        reveal_strlit("3");
        reveal_strlit("4");
        reveal_strlit("5");
        reveal_strlit("6");
        reveal_strlit("7");
        reveal_strlit("8");
        reveal_strlit("9");
    }
    if d == 0 {
        "0"
    } else if d == 1 {
        "1"
    } else if d == 2 {
        "2"
    } else if d == 3 {
        "3"
    } else if d == 4 {
        "4"
    } else if d == 5 {
        "5"
    } else if d == 6 {
        "6"
    } else if d == 7 {
        "7"
    } else if d == 8 {
        "8"
    } else {
        "9"
    }
}

/// Writes a number in decimal digits.
pub fn decimal_text(n: u16) -> (r: String)
    ensures
        r@ == decimal(n as nat),
    decreases n,
{
    if n < 10 {
        digit_text(n).to_owned()
    } else {
        let mut text = decimal_text(n / 10);
        text.append(digit_text(n % 10));
        text
    }
}

/// Writes the address of an endpoint of the service that listens on `port`.
pub fn endpoint_url(port: u16, path: &str) -> (r: String)
    ensures
        r@ == endpoint(port, path@),
{
    let mut url = "http://127.0.0.1:".to_owned();
    let digits = decimal_text(port);
    url.append(digits.as_str());
    url.append(path);
    url
}

/// The two methods that the service is spoken to with.
#[derive(Clone, Copy, Debug, PartialEq, Eq, Structural)]
pub enum Method {
    Get,
    Post,
}

/// An exchange to perform: the caller sends it and hands back the [`Reply`].
#[derive(Debug, PartialEq)]
pub struct Request {
    pub method: Method,
    pub url: String,
    /// The JSON body, where the method carries one.
    pub body: Option<Json>,
}

/// The mathematical value of a [`Request`].
pub struct RequestView {
    pub method: Method,
    pub url: Seq<char>,
    pub body: Option<JsonView>,
}

impl View for Request {
    type V = RequestView;

    open spec fn view(&self) -> RequestView {
        RequestView {
            method: self.method,
            url: self.url@,
            body: match self.body {
                Some(body) => Some(body@),
                None => None,
            },
        }
    }
}

/// What came back from an exchange.
#[derive(Debug, PartialEq)]
pub enum Reply {
    /// Nothing came back: the exchange itself failed.
    Unreachable,
    /// An answer came whose body is no JSON document.
    Unreadable,
    /// An answer came with this document as its body.
    Document(Json),
}

/// The mathematical value of a [`Reply`].
pub enum ReplyView {
    Unreachable,
    Unreadable,
    Document(JsonView),
}

impl View for Reply {
    type V = ReplyView;

    open spec fn view(&self) -> ReplyView {
        match self {
            Reply::Unreachable => ReplyView::Unreachable,
            Reply::Unreadable => ReplyView::Unreadable,
            Reply::Document(body) => ReplyView::Document(body@),
        }
    }
}

impl ReplyView {
    /// The document of a reply, or why there is none.
    pub open spec fn document(self) -> Result<JsonView, FetchError> {
        match self {
            ReplyView::Unreachable => Err(FetchError::Transport),
            ReplyView::Unreadable => Err(FetchError::Decode(DecodeError::Syntax)),
            ReplyView::Document(body) => Ok(body),
        }
    }

    /// The items that a reply to an item listing holds.
    pub open spec fn items(self) -> Result<Seq<ItemModelView>, FetchError> {
        match self.document() {
            Err(e) => Err(e),
            Ok(body) => match decoded_items(body) {
                Ok(items) => Ok(items),
                Err(e) => Err(FetchError::Decode(e)),
            },
        }
    }

    /// The item that a reply to an item resolution holds: the first of those
    /// listed, or none where the list is empty.
    pub open spec fn resolved_item(self) -> Result<Option<ItemWithSoundsView>, FetchError> {
        match self.document() {
            Err(e) => Err(e),
            Ok(body) => match decoded_resolution(body) {
                Ok(items) => if items.len() == 0 {
                    Ok(None)
                } else {
                    Ok(Some(items[0]))
                },
                Err(e) => Err(FetchError::Decode(e)),
            },
        }
    }

    /// The sounds that a reply to a sound resolution holds: the items of an
    /// array, whatever they are.
    pub open spec fn sounds(self) -> Result<Seq<JsonView>, FetchError> {
        match self.document() {
            Err(e) => Err(e),
            Ok(body) => match body.items() {
                Ok(sounds) => Ok(sounds),
                Err(e) => Err(FetchError::Decode(e)),
            },
        }
    }

    /// Whether an overlay event went out: any answer will do.
    pub open spec fn published(self) -> Result<(), FetchError> {
        match self {
            ReplyView::Unreachable => Err(FetchError::Transport),
            _ => Ok(()),
        }
    }
}

impl Reply {
    /// Reads the reply to an item listing.
    pub fn items(&self) -> (r: Result<Vec<ItemModel>, FetchError>)
        ensures
            self@.items() == (match r {
                Ok(items) => Ok(views(items@)),
                Err(e) => Err(e),
            }),
    {
        match self {
            Reply::Unreachable => Err(FetchError::Transport),
            Reply::Unreadable => Err(FetchError::Decode(DecodeError::Syntax)),
            Reply::Document(body) => match ItemModel::decode_list(body) {
                Ok(items) => Ok(items),
                Err(e) => Err(FetchError::Decode(e)),
            },
        }
    }

    /// Reads the reply to an item resolution: the first item listed, or none
    /// where the item is no longer there.
    pub fn resolved_item(&self) -> (r: Result<Option<ItemWithSounds>, FetchError>)
        ensures
            self@.resolved_item() == (match r {
                Ok(Some(item)) => Ok(Some(item@)),
                Ok(None) => Ok(None),
                Err(e) => Err(e),
            }),
    {
        match self {
            Reply::Unreachable => Err(FetchError::Transport),
            Reply::Unreadable => Err(FetchError::Decode(DecodeError::Syntax)),
            Reply::Document(body) => match ItemWithSounds::decode_list(body) {
                Ok(items) => {
                    let mut items = items;
                    if items.len() == 0 {
                        Ok(None)
                    } else {
                        Ok(Some(items.remove(0)))
                    }
                },
                Err(e) => Err(FetchError::Decode(e)),
            },
        }
    }

    /// Reads the reply to a sound resolution.
    pub fn sounds(self) -> (r: Result<Vec<Json>, FetchError>)
        ensures
            self@.sounds() == (match r {
                Ok(sounds) => Ok(views(sounds@)),
                Err(e) => Err(e),
            }),
    {
        match self {
            Reply::Unreachable => Err(FetchError::Transport),
            Reply::Unreadable => Err(FetchError::Decode(DecodeError::Syntax)),
            Reply::Document(body) => {
                proof {
                    if body is Array {
                        crate::json::lemma_array_view(body);
                    }
                }
                match body {
                    Json::Array(sounds) => Ok(sounds),
                    _ => Err(FetchError::Decode(DecodeError::WrongType)),
                }
            },
        }
    }

    /// Reads the reply to the publication of an overlay event.
    pub fn published(&self) -> (r: Result<(), FetchError>)
        ensures
            r == self@.published(),
    {
        match self {
            Reply::Unreachable => Err(FetchError::Transport),
            _ => Ok(()),
        }
    }
}

} // verus!
