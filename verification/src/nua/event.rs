//! The notifications that the engine sends to its callback.

use crate::error::Error;
use vstd::prelude::*;

verus! {

/// The highest code that the engine gives to an event.
pub const EVENT_CODE_MAX: i32 = 54;

/// An event of the engine: an indication of something that came in, or the
/// reply to an operation that went out.  The variants stand in the order
/// of the engine's own enumeration, which numbers them from zero.
#[derive(Debug, Clone, Copy, PartialEq, Eq, Structural)]
pub enum Event {
    IncomingError,
    IncomingInvite,
    IncomingCancel,
    IncomingAck,
    IncomingFork,
    IncomingActive,
    IncomingTerminated,
    IncomingState,
    IncomingOutbound,
    IncomingBye,
    IncomingOptions,
    IncomingRefer,
    IncomingPublish,
    IncomingPrack,
    IncomingInfo,
    Incomingupdate,
    IncomingMessage,
    IncomingChat,
    IncomingSubscribe,
    IncomingSubscription,
    IncomingNotify,
    IncomingMethod,
    IncomingMediaError,
    ReplySetParams,
    ReplyGetParams,
    ReplyShutdown,
    ReplyNotifier,
    ReplyTerminate,
    ReplyAuthorize,
    ReplyRegister,
    ReplyUnregister,
    ReplyInvite,
    ReplyCancel,
    ReplyBye,
    ReplyOptions,
    ReplyRefer,
    ReplyPublish,
    ReplyUnpublish,
    ReplyInfo,
    ReplyPrack,
    ReplyUpdate,
    ReplyMessage,
    ReplyChat,
    ReplySubscribe,
    ReplyUnsubscribe,
    ReplyNotify,
    ReplyMethod,
    ReplyAuthenticate,
    ReplyRedirect,
    ReplyDestroy,
    ReplyRespond,
    ReplyNitRespond,
    ReplyAck,
    IncomingNetworkChanged,
    IncomingRegister,
}

impl Event {
    /// The engine's code for the event.
    pub open spec fn spec_code(self) -> int {
        match self {
            Event::IncomingError => 0,
            Event::IncomingInvite => 1,
            Event::IncomingCancel => 2,
            Event::IncomingAck => 3,
            Event::IncomingFork => 4,
            Event::IncomingActive => 5,
            Event::IncomingTerminated => 6,
            Event::IncomingState => 7,
            Event::IncomingOutbound => 8,
            Event::IncomingBye => 9,
            Event::IncomingOptions => 10,
            Event::IncomingRefer => 11,
            Event::IncomingPublish => 12,
            Event::IncomingPrack => 13,
            Event::IncomingInfo => 14,
            Event::Incomingupdate => 15,
            Event::IncomingMessage => 16,
            Event::IncomingChat => 17,
            Event::IncomingSubscribe => 18,
            Event::IncomingSubscription => 19,
            Event::IncomingNotify => 20,
            Event::IncomingMethod => 21,
            Event::IncomingMediaError => 22,
            Event::ReplySetParams => 23,
            Event::ReplyGetParams => 24,
            Event::ReplyShutdown => 25,
            Event::ReplyNotifier => 26,
            Event::ReplyTerminate => 27,
            Event::ReplyAuthorize => 28,
            Event::ReplyRegister => 29,
            Event::ReplyUnregister => 30,
            Event::ReplyInvite => 31,
            Event::ReplyCancel => 32,
            Event::ReplyBye => 33,
            Event::ReplyOptions => 34,
            Event::ReplyRefer => 35,
            Event::ReplyPublish => 36,
            Event::ReplyUnpublish => 37,
            Event::ReplyInfo => 38,
            Event::ReplyPrack => 39,
            Event::ReplyUpdate => 40,
            Event::ReplyMessage => 41,
            Event::ReplyChat => 42,
            Event::ReplySubscribe => 43,
            Event::ReplyUnsubscribe => 44,
            Event::ReplyNotify => 45,
            Event::ReplyMethod => 46,
            Event::ReplyAuthenticate => 47,
            Event::ReplyRedirect => 48,
            Event::ReplyDestroy => 49,
            Event::ReplyRespond => 50,
            Event::ReplyNitRespond => 51,
            Event::ReplyAck => 52,
            Event::IncomingNetworkChanged => 53,
            Event::IncomingRegister => 54,
        }
    }

    /// The event that the engine means by `code`, if it means any.
    pub open spec fn of_code(code: int) -> Option<Event> {
        if code == 0 {
            Some(Event::IncomingError)
        } else if code == 1 {
            Some(Event::IncomingInvite)
        } else if code == 2 {
            Some(Event::IncomingCancel)
        } else if code == 3 {
            Some(Event::IncomingAck)
        } else if code == 4 {
            Some(Event::IncomingFork)
        } else if code == 5 {
            Some(Event::IncomingActive)
        } else if code == 6 {
            Some(Event::IncomingTerminated)
        } else if code == 7 {
            Some(Event::IncomingState)
        } else if code == 8 {
            Some(Event::IncomingOutbound)
        } else if code == 9 {
            Some(Event::IncomingBye)
        } else if code == 10 {
            Some(Event::IncomingOptions)
        } else if code == 11 {
            Some(Event::IncomingRefer)
        } else if code == 12 {
            Some(Event::IncomingPublish)
        } else if code == 13 {
            Some(Event::IncomingPrack)
        } else if code == 14 {
            Some(Event::IncomingInfo)
        } else if code == 15 {
            Some(Event::Incomingupdate)
        } else if code == 16 {
            Some(Event::IncomingMessage)
        } else if code == 17 {
            Some(Event::IncomingChat)
        } else if code == 18 {
            Some(Event::IncomingSubscribe)
        } else if code == 19 {
            Some(Event::IncomingSubscription)
        } else if code == 20 {
            Some(Event::IncomingNotify)
        } else if code == 21 {
            Some(Event::IncomingMethod)
        } else if code == 22 {
            Some(Event::IncomingMediaError)
        } else if code == 23 {
            Some(Event::ReplySetParams)
        } else if code == 24 {
            Some(Event::ReplyGetParams)
        } else if code == 25 {
            Some(Event::ReplyShutdown)
        } else if code == 26 {
            Some(Event::ReplyNotifier)
        } else if code == 27 {
            Some(Event::ReplyTerminate)
        } else if code == 28 {
            Some(Event::ReplyAuthorize)
        } else if code == 29 {
            Some(Event::ReplyRegister)
        } else if code == 30 {
            Some(Event::ReplyUnregister)
        } else if code == 31 {
            Some(Event::ReplyInvite)
        } else if code == 32 {
            Some(Event::ReplyCancel)
        } else if code == 33 {
            Some(Event::ReplyBye)
        } else if code == 34 {
            Some(Event::ReplyOptions)
        } else if code == 35 {
            Some(Event::ReplyRefer)
        } else if code == 36 {
            Some(Event::ReplyPublish)
        } else if code == 37 {
            Some(Event::ReplyUnpublish)
        } else if code == 38 {
            Some(Event::ReplyInfo)
        } else if code == 39 {
            Some(Event::ReplyPrack)
        } else if code == 40 {
            Some(Event::ReplyUpdate)
        } else if code == 41 {
            Some(Event::ReplyMessage)
        } else if code == 42 {
            Some(Event::ReplyChat)
        } else if code == 43 {
            Some(Event::ReplySubscribe)
        } else if code == 44 {
            Some(Event::ReplyUnsubscribe)
        } else if code == 45 {
            Some(Event::ReplyNotify)
        } else if code == 46 {
            Some(Event::ReplyMethod)
        } else if code == 47 {
            Some(Event::ReplyAuthenticate)
        } else if code == 48 {
            Some(Event::ReplyRedirect)
        } else if code == 49 {
            Some(Event::ReplyDestroy)
        } else if code == 50 {
            Some(Event::ReplyRespond)
        } else if code == 51 {
            Some(Event::ReplyNitRespond)
        } else if code == 52 {
            Some(Event::ReplyAck)
        } else if code == 53 {
            Some(Event::IncomingNetworkChanged)
        } else if code == 54 {
            Some(Event::IncomingRegister)
        } else {
            None
        }
    }

    /// The engine's code for the event.
    pub fn code(&self) -> (code: i32)
        ensures
            code == self.spec_code(),
            0 <= code <= EVENT_CODE_MAX,
    {
        match self {
            Event::IncomingError => 0,
            Event::IncomingInvite => 1,
            Event::IncomingCancel => 2,
            Event::IncomingAck => 3,
            Event::IncomingFork => 4,
            Event::IncomingActive => 5,
            Event::IncomingTerminated => 6,
            Event::IncomingState => 7,
            Event::IncomingOutbound => 8,
            Event::IncomingBye => 9,
            Event::IncomingOptions => 10,
            Event::IncomingRefer => 11,
            Event::IncomingPublish => 12,
            Event::IncomingPrack => 13,
            Event::IncomingInfo => 14,
            Event::Incomingupdate => 15,
            Event::IncomingMessage => 16,
            Event::IncomingChat => 17,
            Event::IncomingSubscribe => 18,
            Event::IncomingSubscription => 19,
            Event::IncomingNotify => 20,
            Event::IncomingMethod => 21,
            Event::IncomingMediaError => 22,
            Event::ReplySetParams => 23,
            Event::ReplyGetParams => 24,
            Event::ReplyShutdown => 25,
            Event::ReplyNotifier => 26,
            Event::ReplyTerminate => 27,
            Event::ReplyAuthorize => 28,
            Event::ReplyRegister => 29,
            Event::ReplyUnregister => 30,
            Event::ReplyInvite => 31,
            Event::ReplyCancel => 32,
            Event::ReplyBye => 33,
            Event::ReplyOptions => 34,
            Event::ReplyRefer => 35,
            Event::ReplyPublish => 36,
            Event::ReplyUnpublish => 37,
            Event::ReplyInfo => 38,
            Event::ReplyPrack => 39,
            Event::ReplyUpdate => 40,
            Event::ReplyMessage => 41,
            Event::ReplyChat => 42,
            Event::ReplySubscribe => 43,
            Event::ReplyUnsubscribe => 44,
            Event::ReplyNotify => 45,
            Event::ReplyMethod => 46,
            Event::ReplyAuthenticate => 47,
            Event::ReplyRedirect => 48,
            Event::ReplyDestroy => 49,
            Event::ReplyRespond => 50,
            Event::ReplyNitRespond => 51,
            Event::ReplyAck => 52,
            Event::IncomingNetworkChanged => 53,
            Event::IncomingRegister => 54,
        }
    }
}

impl TryFrom<i32> for Event {
    type Error = Error;

    /// Decodes the engine's code for an event.  Every code from zero to
    /// [`EVENT_CODE_MAX`] is an event; any other is refused.
    fn try_from(v: i32) -> (res: Result<Event, Error>)
        ensures
            res is Ok <==> 0 <= v <= EVENT_CODE_MAX,
            res matches Ok(event) ==> Event::of_code(v as int) == Some(event) && event.spec_code()
                == v,
            res matches Err(e) ==> e == Error::InitError,
    {
        match v {
            0 => Ok(Event::IncomingError),
            1 => Ok(Event::IncomingInvite),
            2 => Ok(Event::IncomingCancel),
            3 => Ok(Event::IncomingAck),
            4 => Ok(Event::IncomingFork),
            5 => Ok(Event::IncomingActive),
            6 => Ok(Event::IncomingTerminated),
            7 => Ok(Event::IncomingState),
            8 => Ok(Event::IncomingOutbound),
            9 => Ok(Event::IncomingBye),
            10 => Ok(Event::IncomingOptions),
            11 => Ok(Event::IncomingRefer),
            12 => Ok(Event::IncomingPublish),
            13 => Ok(Event::IncomingPrack),
            14 => Ok(Event::IncomingInfo),
            15 => Ok(Event::Incomingupdate),
            16 => Ok(Event::IncomingMessage),
            17 => Ok(Event::IncomingChat),
            18 => Ok(Event::IncomingSubscribe),
            19 => Ok(Event::IncomingSubscription),
            20 => Ok(Event::IncomingNotify),
            21 => Ok(Event::IncomingMethod),
            22 => Ok(Event::IncomingMediaError),
            23 => Ok(Event::ReplySetParams),
            24 => Ok(Event::ReplyGetParams),
            25 => Ok(Event::ReplyShutdown),
            26 => Ok(Event::ReplyNotifier),
            27 => Ok(Event::ReplyTerminate),
            28 => Ok(Event::ReplyAuthorize),
            29 => Ok(Event::ReplyRegister),
            30 => Ok(Event::ReplyUnregister),
            31 => Ok(Event::ReplyInvite),
            32 => Ok(Event::ReplyCancel),
            33 => Ok(Event::ReplyBye),
            34 => Ok(Event::ReplyOptions),
            35 => Ok(Event::ReplyRefer),
            36 => Ok(Event::ReplyPublish),
            37 => Ok(Event::ReplyUnpublish),
            38 => Ok(Event::ReplyInfo),
            39 => Ok(Event::ReplyPrack),
            40 => Ok(Event::ReplyUpdate),
            41 => Ok(Event::ReplyMessage),
            42 => Ok(Event::ReplyChat),
            43 => Ok(Event::ReplySubscribe),
            44 => Ok(Event::ReplyUnsubscribe),
            45 => Ok(Event::ReplyNotify),
            46 => Ok(Event::ReplyMethod),
            47 => Ok(Event::ReplyAuthenticate),
            48 => Ok(Event::ReplyRedirect),
            49 => Ok(Event::ReplyDestroy),
            50 => Ok(Event::ReplyRespond),
            51 => Ok(Event::ReplyNitRespond),
            52 => Ok(Event::ReplyAck),
            53 => Ok(Event::IncomingNetworkChanged),
            54 => Ok(Event::IncomingRegister),
            _ => Err(Error::InitError),
        }
    }
}

impl vstd::std_specs::convert::TryFromSpecImpl<i32> for Event {
    open spec fn obeys_try_from_spec() -> bool {
        true
    }

    open spec fn try_from_spec(v: i32) -> Result<Event, Error> {
        match Event::of_code(v as int) {
            Some(event) => Ok(event),
            None => Err(Error::InitError),
        }
    }
}

/// The codes and the events stand one to one: every event has a code from
/// zero to [`EVENT_CODE_MAX`] that is read back as that event.
pub proof fn lemma_event_code_round_trip(event: Event)
    ensures
        0 <= event.spec_code() <= EVENT_CODE_MAX,
        Event::of_code(event.spec_code()) == Some(event),
{
}

/// Decoding is total on the engine's codes and on nothing else, and the
/// event found has the code that was given.
pub proof fn lemma_event_of_code(code: int)
    ensures
        Event::of_code(code) is Some <==> 0 <= code <= EVENT_CODE_MAX,
        Event::of_code(code) matches Some(event) ==> event.spec_code() == code,
{
}

} // verus!
