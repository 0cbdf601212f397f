//! The throw of one item: three exchanges in a row, each of which can end it.
//!
//! The pipeline is a value. Its owner sends the request it was given, hands
//! the reply to [`ThrowPipeline::advance`] and sends what comes back, until
//! nothing does. Every step reads the port anew.

use vstd::prelude::*;
use crate::ident::Id;
use crate::error::FetchError;
use crate::models::{ItemWithSounds, ItemWithSoundsView};
use crate::request::{Reply, ReplyView, Request, RequestView};
use crate::state::{item_query, sound_query, throw_request, State};

verus! {

/// The steps of a throw.
#[derive(Clone, Copy, Debug, PartialEq, Eq, Structural)]
pub enum Stage {
    ResolveItem,
    ResolveSounds,
    Publish,
}

/// How a throw ended.
#[derive(Clone, Copy, Debug, PartialEq, Eq, Structural)]
pub enum Ending {
    /// The overlay event went out.
    Published,
    /// The catalog no longer holds the item: nothing to throw, and no fault.
    ItemMissing,
    /// A step failed; the steps after it were not taken.
    Failed { stage: Stage, error: FetchError },
}

/// A throw under way, or over.
#[derive(Debug, PartialEq)]
pub enum ThrowPipeline {
    /// The item is being resolved.
    ResolvingItem,
    /// The sounds of the resolved item are being resolved.
    ResolvingSounds(ItemWithSounds),
    /// The overlay event is being published.
    Publishing,
    /// Nothing is left to do.
    Over(Ending),
}

/// The mathematical value of a [`ThrowPipeline`].
pub enum ThrowPipelineView {
    ResolvingItem,
    ResolvingSounds(ItemWithSoundsView),
    Publishing,
    Over(Ending),
}

impl View for ThrowPipeline {
    type V = ThrowPipelineView;

    open spec fn view(&self) -> ThrowPipelineView {
        match self {
            ThrowPipeline::ResolvingItem => ThrowPipelineView::ResolvingItem,
            ThrowPipeline::ResolvingSounds(item) => ThrowPipelineView::ResolvingSounds(item@),
            ThrowPipeline::Publishing => ThrowPipelineView::Publishing,
            ThrowPipeline::Over(ending) => ThrowPipelineView::Over(*ending),
        }
    }
}

/// The value of a request that may be there.
pub open spec fn request_view(request: Option<Request>) -> Option<RequestView> {
    match request {
        Some(request) => Some(request@),
        None => None,
    }
}

impl ThrowPipelineView {
    /// The step that a reply causes, for the port current when it arrives:
    /// the state after it, and the request to send next, if the throw goes on.
    pub open spec fn advanced(self, port: u16, reply: ReplyView) -> (
        ThrowPipelineView,
        Option<RequestView>,
    ) {
        match self {
            ThrowPipelineView::ResolvingItem => match reply.resolved_item() {
                Err(error) => (
                    ThrowPipelineView::Over(Ending::Failed { stage: Stage::ResolveItem, error }),
                    None,
                ),
                Ok(None) => (ThrowPipelineView::Over(Ending::ItemMissing), None),
                Ok(Some(item)) => (
                    ThrowPipelineView::ResolvingSounds(item),
                    Some(sound_query(port, item.sound_ids())),
                ),
            },
            ThrowPipelineView::ResolvingSounds(item) => match reply.sounds() {
                Err(error) => (
                    ThrowPipelineView::Over(Ending::Failed { stage: Stage::ResolveSounds, error }),
                    None,
                ),
                Ok(sounds) => (
                    ThrowPipelineView::Publishing,
                    Some(throw_request(port, item, sounds)),
                ),
            },
            ThrowPipelineView::Publishing => match reply.published() {
                Err(error) => (
                    ThrowPipelineView::Over(Ending::Failed { stage: Stage::Publish, error }),
                    None,
                ),
                Ok(_) => (ThrowPipelineView::Over(Ending::Published), None),
            },
            ThrowPipelineView::Over(ending) => (ThrowPipelineView::Over(ending), None),
        }
    }

    /// The requests that the pipeline asks for while the replies of `events`
    /// arrive in turn, each beside the port current at its arrival.
    pub open spec fn requests(self, events: Seq<(u16, ReplyView)>) -> Seq<RequestView>
        decreases events.len(),
    {
        if events.len() == 0 {
            Seq::empty()
        } else {
            let (next, request) = self.advanced(events[0].0, events[0].1);
            let rest = next.requests(events.skip(1));
            match request {
                Some(request) => seq![request] + rest,
                None => rest,
            }
        }
    }

    /// A pipeline that is over asks for no request, whatever arrives.
    pub proof fn lemma_over_is_silent(self, events: Seq<(u16, ReplyView)>)
        requires
            self is Over,
        ensures
            self.requests(events) == Seq::<RequestView>::empty(),
        decreases events.len(),
    {
        if events.len() > 0 {
            self.lemma_over_is_silent(events.skip(1));
        }
    }

    /// Where the resolution of the item comes back empty, the pipeline asks
    /// for no request from then on: no sounds are asked for and no overlay event
    /// is published, whatever arrives later.
    pub proof fn lemma_missing_item_ends_throw(events: Seq<(u16, ReplyView)>)
        requires
            events.len() > 0,
            events[0].1.resolved_item() == Ok::<Option<ItemWithSoundsView>, FetchError>(None),
        ensures
            ThrowPipelineView::ResolvingItem.requests(events) == Seq::<RequestView>::empty(),
            ThrowPipelineView::ResolvingItem.advanced(events[0].0, events[0].1).0
                == ThrowPipelineView::Over(Ending::ItemMissing),
    {
        let next = ThrowPipelineView::ResolvingItem.advanced(events[0].0, events[0].1).0;
        next.lemma_over_is_silent(events.skip(1));
    }

    /// A step that fails ends the throw: no request is asked for after it.
    pub proof fn lemma_failure_ends_throw(self, events: Seq<(u16, ReplyView)>)
        requires
            events.len() > 0,
            self.advanced(events[0].0, events[0].1).0 is Over,
        ensures
            self.requests(events) == Seq::<RequestView>::empty(),
    {
        let next = self.advanced(events[0].0, events[0].1).0;
        next.lemma_over_is_silent(events.skip(1));
    }

    /// Where the item resolves and its sounds come back, the throw asks for
    /// exactly two requests after the resolution of the item: that of the
    /// sounds, then the publication. Whatever answers the publication, and
    /// whatever arrives after it, nothing more is asked for.
    pub proof fn lemma_good_replies_publish(events: Seq<(u16, ReplyView)>)
        requires
            events.len() >= 2,
            events[0].1.resolved_item() matches Ok(Some(_)),
            events[1].1.sounds() is Ok,
        ensures
            ({
                let item = events[0].1.resolved_item()->Ok_0->Some_0;
                let sounds = events[1].1.sounds()->Ok_0;
                ThrowPipelineView::ResolvingItem.requests(events) == seq![
                    sound_query(events[0].0, item.impact_sounds_ids + item.windup_sounds_ids),
                    throw_request(events[1].0, item, sounds),
                ]
            }),
    {
        let start = ThrowPipelineView::ResolvingItem;
        let (second, first_request) = start.advanced(events[0].0, events[0].1);
        let later = events.skip(1);
        let (third, second_request) = second.advanced(later[0].0, later[0].1);
        let last = later.skip(1);
        let after_second = third.requests(last);
        assert(second.requests(later) == seq![second_request->Some_0] + after_second);
        if last.len() > 0 {
            let fourth = third.advanced(last[0].0, last[0].1).0;
            fourth.lemma_over_is_silent(last.skip(1));
        }
    }

    /// After the resolution of the item, a throw asks for at most two requests,
    /// in this order: the resolution of the sounds that the item lists, those
    /// of the impact before those of the windup; then the publication of the
    /// item with the sounds that came back. Each is addressed to the port
    /// current when it is built.
    pub proof fn lemma_requests_in_order(events: Seq<(u16, ReplyView)>)
        ensures
            ({
                let requests = ThrowPipelineView::ResolvingItem.requests(events);
                &&& requests.len() <= 2
                &&& requests.len() >= 1 ==> {
                    &&& events.len() >= 1
                    &&& events[0].1.resolved_item() matches Ok(Some(item))
                    &&& requests[0] == sound_query(
                        events[0].0,
                        item.impact_sounds_ids + item.windup_sounds_ids,
                    )
                    &&& requests.len() == 2 ==> {
                        &&& events.len() >= 2
                        &&& events[1].1.sounds() matches Ok(sounds)
                        &&& requests[1] == throw_request(events[1].0, item, sounds)
                    }
                }
            }),
    {
        let start = ThrowPipelineView::ResolvingItem;
        let requests = start.requests(events);
        if events.len() > 0 {
            let (second, first_request) = start.advanced(events[0].0, events[0].1);
            let later = events.skip(1);
            let after_first = second.requests(later);
            assert(requests == (match first_request {
                Some(request) => seq![request] + after_first,
                None => after_first,
            }));
            if second is Over {
                second.lemma_over_is_silent(later);
            } else if later.len() > 0 {
                let (third, second_request) = second.advanced(later[0].0, later[0].1);
                let last = later.skip(1);
                let after_second = third.requests(last);
                assert(after_first == (match second_request {
                    Some(request) => seq![request] + after_second,
                    None => after_second,
                }));
                if third is Over {
                    third.lemma_over_is_silent(last);
                } else if last.len() > 0 {
                    let fourth = third.advanced(last[0].0, last[0].1).0;
                    fourth.lemma_over_is_silent(last.skip(1));
                }
            }
        }
    }
}

/// All the requests of the throw of `item`: the resolution of the item, for
/// the port current at the click, and what the pipeline asks for while the
/// replies of `events` arrive.
pub open spec fn throw_requests(port: u16, item: Id, events: Seq<(u16, ReplyView)>) -> Seq<
    RequestView,
> {
    seq![item_query(port, seq![item])] + ThrowPipelineView::ResolvingItem.requests(events)
}

/// A throw whose item resolves and whose sounds come back makes exactly
/// three calls, in this order: it resolves the item, it resolves the sounds
/// that the item lists, and it publishes the item with the sounds that came
/// back.
pub proof fn lemma_throw_makes_three_calls(port: u16, item: Id, events: Seq<(u16, ReplyView)>)
    requires
        events.len() >= 2,
        events[0].1.resolved_item() matches Ok(Some(_)),
        events[1].1.sounds() is Ok,
    ensures
        ({
            let resolved = events[0].1.resolved_item()->Ok_0->Some_0;
            let sounds = events[1].1.sounds()->Ok_0;
            throw_requests(port, item, events) == seq![
                item_query(port, seq![item]),
                sound_query(events[0].0, resolved.impact_sounds_ids + resolved.windup_sounds_ids),
                throw_request(events[1].0, resolved, sounds),
            ]
        }),
{
    ThrowPipelineView::lemma_good_replies_publish(events);
}

/// A throw whose item is gone makes one call, the resolution of the item,
/// and never publishes.
pub proof fn lemma_missing_item_makes_one_call(
    port: u16,
    item: Id,
    events: Seq<(u16, ReplyView)>,
)
    requires
        events.len() > 0,
        events[0].1.resolved_item() == Ok::<Option<ItemWithSoundsView>, FetchError>(None),
    ensures
        throw_requests(port, item, events) == seq![item_query(port, seq![item])],
{
    ThrowPipelineView::lemma_missing_item_ends_throw(events);
}

impl ThrowPipeline {
    /// Begins the throw of `item`: the pipeline, and the request that
    /// resolves the item.
    pub fn start<H>(state: &State<H>, item: Id) -> (r: (ThrowPipeline, Request))
        ensures
            r.0@ == ThrowPipelineView::ResolvingItem,
            r.1@ == item_query(state.current_port(), seq![item]),
    {
        (ThrowPipeline::ResolvingItem, state.get_item_by_id(item))
    }

    /// Takes the reply to the request that is out, and gives the state after
    /// it and the request to send next. `None` means that the throw is over;
    /// [`ThrowPipeline::ending`] then says how.
    pub fn advance<H>(self, state: &State<H>, reply: Reply) -> (r: (ThrowPipeline, Option<Request>))
        ensures
            (r.0@, request_view(r.1)) == self@.advanced(state.current_port(), reply@),
            r.1 is None <==> r.0 is Over,
    {
        match self {
            ThrowPipeline::ResolvingItem => match reply.resolved_item() {
                Err(error) => (
                    ThrowPipeline::Over(Ending::Failed { stage: Stage::ResolveItem, error }),
                    None,
                ),
                Ok(None) => (ThrowPipeline::Over(Ending::ItemMissing), None),
                Ok(Some(item)) => {
                    let request = state.get_sounds_by_id(item.sound_ids());
                    (ThrowPipeline::ResolvingSounds(item), Some(request))
                },
            },
            ThrowPipeline::ResolvingSounds(item) => match reply.sounds() {
                Err(error) => (
                    ThrowPipeline::Over(Ending::Failed { stage: Stage::ResolveSounds, error }),
                    None,
                ),
                Ok(sounds) => {
                    let request = state.throw_item(item, sounds);
                    (ThrowPipeline::Publishing, Some(request))
                },
            },
            ThrowPipeline::Publishing => match reply.published() {
                Err(error) => (
                    ThrowPipeline::Over(Ending::Failed { stage: Stage::Publish, error }),
                    None,
                ),
                Ok(_) => (ThrowPipeline::Over(Ending::Published), None),
            },
            ThrowPipeline::Over(ending) => (ThrowPipeline::Over(ending), None),
        }
    }

    /// How the throw ended, once it is over.
    pub fn ending(&self) -> (r: Option<Ending>)
        ensures
            r == (match self@ {
                ThrowPipelineView::Over(ending) => Some(ending),
                _ => None,
            }),
    {
        match self {
            ThrowPipeline::Over(ending) => Some(*ending),
            _ => None,
        }
    }
}

} // verus!
