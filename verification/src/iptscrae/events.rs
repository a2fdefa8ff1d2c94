//! Script event types: what makes a handler run.
//!
//! Events are triggered by user actions, room changes, or server events;
//! a script registers handlers for them with the ON keyword.
use vstd::prelude::*;
use vstd::utf8::is_ascii_chars;
use crate::text::{ascii_upper, lemma_ascii_upper_idempotent, to_uppercase, str_eq, upper_text};
pub use crate::event_mask::EventMask;

verus! {

/// Event type enumeration for matching individual events.
#[derive(Debug, Clone, Copy, PartialEq, Eq, Hash, Structural)]
pub enum EventType {
    Select,
    Lock,
    Unlock,
    Hide,
    Show,
    Startup,
    Alarm,
    Custom,
    InChat,
    PropChange,
    Enter,
    Leave,
    OutChat,
    SignOn,
    SignOff,
    Macro0,
    Macro1,
    Macro2,
    Macro3,
    Macro4,
    Macro5,
    Macro6,
    Macro7,
    Macro8,
    Macro9,
}

/// The bit of an event in an event mask.
pub open spec fn event_bit(e: EventType) -> u32 {
    match e {
        EventType::Select => 0x1u32,
        EventType::Lock => 0x2u32,
        EventType::Unlock => 0x4u32,
        EventType::Hide => 0x8u32,
        EventType::Show => 0x10u32,
        EventType::Startup => 0x20u32,
        EventType::Alarm => 0x40u32,
        EventType::Custom => 0x80u32,
        EventType::InChat => 0x100u32,
        EventType::PropChange => 0x200u32,
        EventType::Enter => 0x400u32,
        EventType::Leave => 0x800u32,
        EventType::OutChat => 0x1000u32,
        EventType::SignOn => 0x2000u32,
        EventType::SignOff => 0x4000u32,
        EventType::Macro0 => 0x8000u32,
        EventType::Macro1 => 0x10000u32,
        EventType::Macro2 => 0x20000u32,
        EventType::Macro3 => 0x40000u32,
        EventType::Macro4 => 0x80000u32,
        EventType::Macro5 => 0x100000u32,
        EventType::Macro6 => 0x200000u32,
        EventType::Macro7 => 0x400000u32,
        EventType::Macro8 => 0x800000u32,
        EventType::Macro9 => 0x1000000u32,
    }
}

/// The position of an event's bit in a mask.
pub open spec fn event_index(e: EventType) -> nat {
    match e {
        EventType::Select => 0,
        EventType::Lock => 1,
        EventType::Unlock => 2,
        EventType::Hide => 3,
        EventType::Show => 4,
        EventType::Startup => 5,
        EventType::Alarm => 6,
        EventType::Custom => 7,
        EventType::InChat => 8,
        EventType::PropChange => 9,
        EventType::Enter => 10,
        EventType::Leave => 11,
        EventType::OutChat => 12,
        EventType::SignOn => 13,
        EventType::SignOff => 14,
        EventType::Macro0 => 15,
        EventType::Macro1 => 16,
        EventType::Macro2 => 17,
        EventType::Macro3 => 18,
        EventType::Macro4 => 19,
        EventType::Macro5 => 20,
        EventType::Macro6 => 21,
        EventType::Macro7 => 22,
        EventType::Macro8 => 23,
        EventType::Macro9 => 24,
    }
}

/// Each event's mask has exactly one bit set, at its own position: the bit
/// is 2 to the power of the event's index, and no two events share an
/// index.
pub proof fn lemma_event_bit_single(e: EventType)
    ensures
        event_index(e) < 25,
        event_bit(e) as nat == vstd::arithmetic::power2::pow2(event_index(e)),
        event_bit(e) == 1u32 << (event_index(e) as u32),
        forall|f: EventType| #[trigger] event_index(f) == event_index(e) ==> f == e,
{
    vstd::arithmetic::power2::lemma2_to64();
    vstd::bits::lemma_u32_shl_is_mul(1u32, event_index(e) as u32);
}

/// The masks of two different events have no bit in common.
pub proof fn lemma_event_bits_disjoint(a: EventType, b: EventType)
    requires
        a != b,
    ensures
        event_bit(a) & event_bit(b) == 0,
{
    lemma_event_bit_single(a);
    lemma_event_bit_single(b);
    let i = event_index(a) as u32;
    let j = event_index(b) as u32;
    assert(i != j);
    assert((1u32 << i) & (1u32 << j) == 0u32) by (bit_vector)
        requires
            i < 32u32,
            j < 32u32,
            i != j;
}

/// The name of an event.
pub open spec fn event_name(e: EventType) -> Seq<char> {
    match e {
        EventType::Select => "SELECT"@,
        EventType::Lock => "LOCK"@,
        EventType::Unlock => "UNLOCK"@,
        EventType::Hide => "HIDE"@,
        EventType::Show => "SHOW"@,
        EventType::Startup => "STARTUP"@,
        EventType::Alarm => "ALARM"@,
        EventType::Custom => "CUSTOM"@,
        EventType::InChat => "INCHAT"@,
        EventType::PropChange => "PROPCHANGE"@,
        EventType::Enter => "ENTER"@,
        EventType::Leave => "LEAVE"@,
        EventType::OutChat => "OUTCHAT"@,
        EventType::SignOn => "SIGNON"@,
        EventType::SignOff => "SIGNOFF"@,
        EventType::Macro0 => "MACRO0"@,
        EventType::Macro1 => "MACRO1"@,
        EventType::Macro2 => "MACRO2"@,
        EventType::Macro3 => "MACRO3"@,
        EventType::Macro4 => "MACRO4"@,
        EventType::Macro5 => "MACRO5"@,
        EventType::Macro6 => "MACRO6"@,
        EventType::Macro7 => "MACRO7"@,
        EventType::Macro8 => "MACRO8"@,
        EventType::Macro9 => "MACRO9"@,
    }
}

/// The event that an uppercase name names.
pub open spec fn event_of_upper(u: Seq<char>) -> Option<EventType> {
    if u == "SELECT"@ { Some(EventType::Select) }
    else if u == "LOCK"@ { Some(EventType::Lock) }
    else if u == "UNLOCK"@ { Some(EventType::Unlock) }
    else if u == "HIDE"@ { Some(EventType::Hide) }
    else if u == "SHOW"@ { Some(EventType::Show) }
    else if u == "STARTUP"@ { Some(EventType::Startup) }
    else if u == "ALARM"@ { Some(EventType::Alarm) }
    else if u == "CUSTOM"@ { Some(EventType::Custom) }
    else if u == "INCHAT"@ { Some(EventType::InChat) }
    else if u == "PROPCHANGE"@ { Some(EventType::PropChange) }
    else if u == "ENTER"@ { Some(EventType::Enter) }
    else if u == "LEAVE"@ { Some(EventType::Leave) }
    else if u == "OUTCHAT"@ { Some(EventType::OutChat) }
    else if u == "SIGNON"@ { Some(EventType::SignOn) }
    else if u == "SIGNOFF"@ { Some(EventType::SignOff) }
    else if u == "MACRO0"@ { Some(EventType::Macro0) }
    else if u == "MACRO1"@ { Some(EventType::Macro1) }
    else if u == "MACRO2"@ { Some(EventType::Macro2) }
    else if u == "MACRO3"@ { Some(EventType::Macro3) }
    else if u == "MACRO4"@ { Some(EventType::Macro4) }
    else if u == "MACRO5"@ { Some(EventType::Macro5) }
    else if u == "MACRO6"@ { Some(EventType::Macro6) }
    else if u == "MACRO7"@ { Some(EventType::Macro7) }
    else if u == "MACRO8"@ { Some(EventType::Macro8) }
    else if u == "MACRO9"@ { Some(EventType::Macro9) }
    else { None }
}

/// Event names are matched in any letter case: every event's name is
/// uppercase ASCII and names that event, and an ASCII name and its
/// uppercase form name the same event (see `EventType::from_name`).
pub proof fn lemma_event_names(e: EventType, s: Seq<char>)
    ensures
        is_ascii_chars(event_name(e)),
        ascii_upper(event_name(e)) == event_name(e),
        event_of_upper(event_name(e)) == Some(e),
        is_ascii_chars(s) ==> event_of_upper(ascii_upper(ascii_upper(s))) == event_of_upper(ascii_upper(s)),
{
    reveal_strlit("SELECT");
    reveal_strlit("LOCK");
    reveal_strlit("UNLOCK");
    reveal_strlit("HIDE");
    reveal_strlit("SHOW");
    reveal_strlit("STARTUP");
    reveal_strlit("ALARM");
    reveal_strlit("CUSTOM");
    reveal_strlit("INCHAT");
    reveal_strlit("PROPCHANGE");
    reveal_strlit("ENTER");
    reveal_strlit("LEAVE");
    reveal_strlit("OUTCHAT");
    reveal_strlit("SIGNON");
    reveal_strlit("SIGNOFF");
    reveal_strlit("MACRO0");
    reveal_strlit("MACRO1");
    reveal_strlit("MACRO2");
    reveal_strlit("MACRO3");
    reveal_strlit("MACRO4");
    reveal_strlit("MACRO5");
    reveal_strlit("MACRO6");
    reveal_strlit("MACRO7");
    reveal_strlit("MACRO8");
    reveal_strlit("MACRO9");
    let n = event_name(e);
    assert(ascii_upper(n) =~= n);
    match e {
        EventType::Select => {
            
        },
        EventType::Lock => {
            assert("LOCK"@.len() != "SELECT"@.len());
        },
        EventType::Unlock => {
            assert("UNLOCK"@[0] != "SELECT"@[0]);
            assert("UNLOCK"@.len() != "LOCK"@.len());
        },
        EventType::Hide => {
            assert("HIDE"@.len() != "SELECT"@.len());
            assert("HIDE"@[0] != "LOCK"@[0]);
            assert("HIDE"@.len() != "UNLOCK"@.len());
        },
        EventType::Show => {
            assert("SHOW"@.len() != "SELECT"@.len());
            assert("SHOW"@[0] != "LOCK"@[0]);
            assert("SHOW"@.len() != "UNLOCK"@.len());
            assert("SHOW"@[0] != "HIDE"@[0]);
        },
        EventType::Startup => {
            assert("STARTUP"@.len() != "SELECT"@.len());
            assert("STARTUP"@.len() != "LOCK"@.len());
            assert("STARTUP"@.len() != "UNLOCK"@.len());
            assert("STARTUP"@.len() != "HIDE"@.len());
            assert("STARTUP"@.len() != "SHOW"@.len());
        },
        EventType::Alarm => {
            assert("ALARM"@.len() != "SELECT"@.len());
            assert("ALARM"@.len() != "LOCK"@.len());
            assert("ALARM"@.len() != "UNLOCK"@.len());
            assert("ALARM"@.len() != "HIDE"@.len());
            assert("ALARM"@.len() != "SHOW"@.len());
            assert("ALARM"@.len() != "STARTUP"@.len());
        },
        EventType::Custom => {
            assert("CUSTOM"@[0] != "SELECT"@[0]);
            assert("CUSTOM"@.len() != "LOCK"@.len());
            assert("CUSTOM"@[0] != "UNLOCK"@[0]);
            assert("CUSTOM"@.len() != "HIDE"@.len());
            assert("CUSTOM"@.len() != "SHOW"@.len());
            assert("CUSTOM"@.len() != "STARTUP"@.len());
            assert("CUSTOM"@.len() != "ALARM"@.len());
        },
        EventType::InChat => {
            assert("INCHAT"@[0] != "SELECT"@[0]);
            assert("INCHAT"@.len() != "LOCK"@.len());
            assert("INCHAT"@[0] != "UNLOCK"@[0]);
            assert("INCHAT"@.len() != "HIDE"@.len());
            assert("INCHAT"@.len() != "SHOW"@.len());
            assert("INCHAT"@.len() != "STARTUP"@.len());
            assert("INCHAT"@.len() != "ALARM"@.len());
            assert("INCHAT"@[0] != "CUSTOM"@[0]);
        },
        EventType::PropChange => {
            assert("PROPCHANGE"@.len() != "SELECT"@.len());
            assert("PROPCHANGE"@.len() != "LOCK"@.len());
            assert("PROPCHANGE"@.len() != "UNLOCK"@.len());
            assert("PROPCHANGE"@.len() != "HIDE"@.len());
            assert("PROPCHANGE"@.len() != "SHOW"@.len());
            assert("PROPCHANGE"@.len() != "STARTUP"@.len());
            assert("PROPCHANGE"@.len() != "ALARM"@.len());
            assert("PROPCHANGE"@.len() != "CUSTOM"@.len());
            assert("PROPCHANGE"@.len() != "INCHAT"@.len());
        },
        EventType::Enter => {
            assert("ENTER"@.len() != "SELECT"@.len());
            assert("ENTER"@.len() != "LOCK"@.len());
            assert("ENTER"@.len() != "UNLOCK"@.len());
            assert("ENTER"@.len() != "HIDE"@.len());
            assert("ENTER"@.len() != "SHOW"@.len());
            assert("ENTER"@.len() != "STARTUP"@.len());
            assert("ENTER"@[0] != "ALARM"@[0]);
            assert("ENTER"@.len() != "CUSTOM"@.len());
            assert("ENTER"@.len() != "INCHAT"@.len());
            assert("ENTER"@.len() != "PROPCHANGE"@.len());
        },
        EventType::Leave => {
            assert("LEAVE"@.len() != "SELECT"@.len());
            assert("LEAVE"@.len() != "LOCK"@.len());
            assert("LEAVE"@.len() != "UNLOCK"@.len());
            assert("LEAVE"@.len() != "HIDE"@.len());
            assert("LEAVE"@.len() != "SHOW"@.len());
            assert("LEAVE"@.len() != "STARTUP"@.len());
            assert("LEAVE"@[0] != "ALARM"@[0]);
            assert("LEAVE"@.len() != "CUSTOM"@.len());
            assert("LEAVE"@.len() != "INCHAT"@.len());
            assert("LEAVE"@.len() != "PROPCHANGE"@.len());
            assert("LEAVE"@[0] != "ENTER"@[0]);
        },
        EventType::OutChat => {
            assert("OUTCHAT"@.len() != "SELECT"@.len());
            assert("OUTCHAT"@.len() != "LOCK"@.len());
            assert("OUTCHAT"@.len() != "UNLOCK"@.len());
            assert("OUTCHAT"@.len() != "HIDE"@.len());
            assert("OUTCHAT"@.len() != "SHOW"@.len());
            assert("OUTCHAT"@[0] != "STARTUP"@[0]);
            assert("OUTCHAT"@.len() != "ALARM"@.len());
            assert("OUTCHAT"@.len() != "CUSTOM"@.len());
            assert("OUTCHAT"@.len() != "INCHAT"@.len());
            assert("OUTCHAT"@.len() != "PROPCHANGE"@.len());
            assert("OUTCHAT"@.len() != "ENTER"@.len());
            assert("OUTCHAT"@.len() != "LEAVE"@.len());
        },
        EventType::SignOn => {
            assert("SIGNON"@[1] != "SELECT"@[1]);
            assert("SIGNON"@.len() != "LOCK"@.len());
            assert("SIGNON"@[0] != "UNLOCK"@[0]);
            assert("SIGNON"@.len() != "HIDE"@.len());
            assert("SIGNON"@.len() != "SHOW"@.len());
            assert("SIGNON"@.len() != "STARTUP"@.len());
            assert("SIGNON"@.len() != "ALARM"@.len());
            assert("SIGNON"@[0] != "CUSTOM"@[0]);
            assert("SIGNON"@[0] != "INCHAT"@[0]);
            assert("SIGNON"@.len() != "PROPCHANGE"@.len());
            assert("SIGNON"@.len() != "ENTER"@.len());
            assert("SIGNON"@.len() != "LEAVE"@.len());
            assert("SIGNON"@.len() != "OUTCHAT"@.len());
        },
        EventType::SignOff => {
            assert("SIGNOFF"@.len() != "SELECT"@.len());
            assert("SIGNOFF"@.len() != "LOCK"@.len());
            assert("SIGNOFF"@.len() != "UNLOCK"@.len());
            assert("SIGNOFF"@.len() != "HIDE"@.len());
            assert("SIGNOFF"@.len() != "SHOW"@.len());
            assert("SIGNOFF"@[1] != "STARTUP"@[1]);
            assert("SIGNOFF"@.len() != "ALARM"@.len());
            assert("SIGNOFF"@.len() != "CUSTOM"@.len());
            assert("SIGNOFF"@.len() != "INCHAT"@.len());
            assert("SIGNOFF"@.len() != "PROPCHANGE"@.len());
            assert("SIGNOFF"@.len() != "ENTER"@.len());
            assert("SIGNOFF"@.len() != "LEAVE"@.len());
            assert("SIGNOFF"@[0] != "OUTCHAT"@[0]);
            assert("SIGNOFF"@.len() != "SIGNON"@.len());
        },
        EventType::Macro0 => {
            assert("MACRO0"@[0] != "SELECT"@[0]);
            assert("MACRO0"@.len() != "LOCK"@.len());
            assert("MACRO0"@[0] != "UNLOCK"@[0]);
            assert("MACRO0"@.len() != "HIDE"@.len());
            assert("MACRO0"@.len() != "SHOW"@.len());
            assert("MACRO0"@.len() != "STARTUP"@.len());
            assert("MACRO0"@.len() != "ALARM"@.len());
            assert("MACRO0"@[0] != "CUSTOM"@[0]);
            assert("MACRO0"@[0] != "INCHAT"@[0]);
            assert("MACRO0"@.len() != "PROPCHANGE"@.len());
            assert("MACRO0"@.len() != "ENTER"@.len());
            assert("MACRO0"@.len() != "LEAVE"@.len());
            assert("MACRO0"@.len() != "OUTCHAT"@.len());
            assert("MACRO0"@[0] != "SIGNON"@[0]);
            assert("MACRO0"@.len() != "SIGNOFF"@.len());
        },
        EventType::Macro1 => {
            assert("MACRO1"@[0] != "SELECT"@[0]);
            assert("MACRO1"@.len() != "LOCK"@.len());
            assert("MACRO1"@[0] != "UNLOCK"@[0]);
            assert("MACRO1"@.len() != "HIDE"@.len());
            assert("MACRO1"@.len() != "SHOW"@.len());
            assert("MACRO1"@.len() != "STARTUP"@.len());
            assert("MACRO1"@.len() != "ALARM"@.len());
            assert("MACRO1"@[0] != "CUSTOM"@[0]);
            assert("MACRO1"@[0] != "INCHAT"@[0]);
            assert("MACRO1"@.len() != "PROPCHANGE"@.len());
            assert("MACRO1"@.len() != "ENTER"@.len());
            assert("MACRO1"@.len() != "LEAVE"@.len());
            assert("MACRO1"@.len() != "OUTCHAT"@.len());
            assert("MACRO1"@[0] != "SIGNON"@[0]);
            assert("MACRO1"@.len() != "SIGNOFF"@.len());
            assert("MACRO1"@[5] != "MACRO0"@[5]);
        },
        EventType::Macro2 => {
            assert("MACRO2"@[0] != "SELECT"@[0]);
            assert("MACRO2"@.len() != "LOCK"@.len());
            assert("MACRO2"@[0] != "UNLOCK"@[0]);
            assert("MACRO2"@.len() != "HIDE"@.len());
            assert("MACRO2"@.len() != "SHOW"@.len());
            assert("MACRO2"@.len() != "STARTUP"@.len());
            assert("MACRO2"@.len() != "ALARM"@.len());
            assert("MACRO2"@[0] != "CUSTOM"@[0]);
            assert("MACRO2"@[0] != "INCHAT"@[0]);
            assert("MACRO2"@.len() != "PROPCHANGE"@.len());
            assert("MACRO2"@.len() != "ENTER"@.len());
            assert("MACRO2"@.len() != "LEAVE"@.len());
            assert("MACRO2"@.len() != "OUTCHAT"@.len());
            assert("MACRO2"@[0] != "SIGNON"@[0]);
            assert("MACRO2"@.len() != "SIGNOFF"@.len());
            assert("MACRO2"@[5] != "MACRO0"@[5]);
            assert("MACRO2"@[5] != "MACRO1"@[5]);
        },
        EventType::Macro3 => {
            assert("MACRO3"@[0] != "SELECT"@[0]);
            assert("MACRO3"@.len() != "LOCK"@.len());
            assert("MACRO3"@[0] != "UNLOCK"@[0]);
            assert("MACRO3"@.len() != "HIDE"@.len());
            assert("MACRO3"@.len() != "SHOW"@.len());
            assert("MACRO3"@.len() != "STARTUP"@.len());
            assert("MACRO3"@.len() != "ALARM"@.len());
            assert("MACRO3"@[0] != "CUSTOM"@[0]);
            assert("MACRO3"@[0] != "INCHAT"@[0]);
            assert("MACRO3"@.len() != "PROPCHANGE"@.len());
            assert("MACRO3"@.len() != "ENTER"@.len());
            assert("MACRO3"@.len() != "LEAVE"@.len());
            assert("MACRO3"@.len() != "OUTCHAT"@.len());
            assert("MACRO3"@[0] != "SIGNON"@[0]);
            assert("MACRO3"@.len() != "SIGNOFF"@.len());
            assert("MACRO3"@[5] != "MACRO0"@[5]);
            assert("MACRO3"@[5] != "MACRO1"@[5]);
            assert("MACRO3"@[5] != "MACRO2"@[5]);
        },
        EventType::Macro4 => {
            assert("MACRO4"@[0] != "SELECT"@[0]);
            assert("MACRO4"@.len() != "LOCK"@.len());
            assert("MACRO4"@[0] != "UNLOCK"@[0]);
            assert("MACRO4"@.len() != "HIDE"@.len());
            assert("MACRO4"@.len() != "SHOW"@.len());
            assert("MACRO4"@.len() != "STARTUP"@.len());
            assert("MACRO4"@.len() != "ALARM"@.len());
            assert("MACRO4"@[0] != "CUSTOM"@[0]);
            assert("MACRO4"@[0] != "INCHAT"@[0]);
            assert("MACRO4"@.len() != "PROPCHANGE"@.len());
            assert("MACRO4"@.len() != "ENTER"@.len());
            assert("MACRO4"@.len() != "LEAVE"@.len());
            assert("MACRO4"@.len() != "OUTCHAT"@.len());
            assert("MACRO4"@[0] != "SIGNON"@[0]);
            assert("MACRO4"@.len() != "SIGNOFF"@.len());
            assert("MACRO4"@[5] != "MACRO0"@[5]);
            assert("MACRO4"@[5] != "MACRO1"@[5]);
            assert("MACRO4"@[5] != "MACRO2"@[5]);
            assert("MACRO4"@[5] != "MACRO3"@[5]);
        },
        EventType::Macro5 => {
            assert("MACRO5"@[0] != "SELECT"@[0]);
            assert("MACRO5"@.len() != "LOCK"@.len());
            assert("MACRO5"@[0] != "UNLOCK"@[0]);
            assert("MACRO5"@.len() != "HIDE"@.len());
            assert("MACRO5"@.len() != "SHOW"@.len());
            assert("MACRO5"@.len() != "STARTUP"@.len());
            assert("MACRO5"@.len() != "ALARM"@.len());
            assert("MACRO5"@[0] != "CUSTOM"@[0]);
            assert("MACRO5"@[0] != "INCHAT"@[0]);
            assert("MACRO5"@.len() != "PROPCHANGE"@.len());
            assert("MACRO5"@.len() != "ENTER"@.len());
            assert("MACRO5"@.len() != "LEAVE"@.len());
            assert("MACRO5"@.len() != "OUTCHAT"@.len());
            assert("MACRO5"@[0] != "SIGNON"@[0]);
            assert("MACRO5"@.len() != "SIGNOFF"@.len());
            assert("MACRO5"@[5] != "MACRO0"@[5]);
            assert("MACRO5"@[5] != "MACRO1"@[5]);
            assert("MACRO5"@[5] != "MACRO2"@[5]);
            assert("MACRO5"@[5] != "MACRO3"@[5]);
            assert("MACRO5"@[5] != "MACRO4"@[5]);
        },
        EventType::Macro6 => {
            assert("MACRO6"@[0] != "SELECT"@[0]);
            assert("MACRO6"@.len() != "LOCK"@.len());
            assert("MACRO6"@[0] != "UNLOCK"@[0]);
            assert("MACRO6"@.len() != "HIDE"@.len());
            assert("MACRO6"@.len() != "SHOW"@.len());
            assert("MACRO6"@.len() != "STARTUP"@.len());
            assert("MACRO6"@.len() != "ALARM"@.len());
            assert("MACRO6"@[0] != "CUSTOM"@[0]);
            assert("MACRO6"@[0] != "INCHAT"@[0]);
            assert("MACRO6"@.len() != "PROPCHANGE"@.len());
            assert("MACRO6"@.len() != "ENTER"@.len());
            assert("MACRO6"@.len() != "LEAVE"@.len());
            assert("MACRO6"@.len() != "OUTCHAT"@.len());
            assert("MACRO6"@[0] != "SIGNON"@[0]);
            assert("MACRO6"@.len() != "SIGNOFF"@.len());
            assert("MACRO6"@[5] != "MACRO0"@[5]);
            assert("MACRO6"@[5] != "MACRO1"@[5]);
            assert("MACRO6"@[5] != "MACRO2"@[5]);
            assert("MACRO6"@[5] != "MACRO3"@[5]);
            assert("MACRO6"@[5] != "MACRO4"@[5]);
            assert("MACRO6"@[5] != "MACRO5"@[5]);
        },
        EventType::Macro7 => {
            assert("MACRO7"@[0] != "SELECT"@[0]);
            assert("MACRO7"@.len() != "LOCK"@.len());
            assert("MACRO7"@[0] != "UNLOCK"@[0]);
            assert("MACRO7"@.len() != "HIDE"@.len());
            assert("MACRO7"@.len() != "SHOW"@.len());
            assert("MACRO7"@.len() != "STARTUP"@.len());
            assert("MACRO7"@.len() != "ALARM"@.len());
            assert("MACRO7"@[0] != "CUSTOM"@[0]);
            assert("MACRO7"@[0] != "INCHAT"@[0]);
            assert("MACRO7"@.len() != "PROPCHANGE"@.len());
            assert("MACRO7"@.len() != "ENTER"@.len());
            assert("MACRO7"@.len() != "LEAVE"@.len());
            assert("MACRO7"@.len() != "OUTCHAT"@.len());
            assert("MACRO7"@[0] != "SIGNON"@[0]);
            assert("MACRO7"@.len() != "SIGNOFF"@.len());
            assert("MACRO7"@[5] != "MACRO0"@[5]);
            assert("MACRO7"@[5] != "MACRO1"@[5]);
            assert("MACRO7"@[5] != "MACRO2"@[5]);
            assert("MACRO7"@[5] != "MACRO3"@[5]);
            assert("MACRO7"@[5] != "MACRO4"@[5]);
            assert("MACRO7"@[5] != "MACRO5"@[5]);
            assert("MACRO7"@[5] != "MACRO6"@[5]);
        },
        EventType::Macro8 => {
            assert("MACRO8"@[0] != "SELECT"@[0]);
            assert("MACRO8"@.len() != "LOCK"@.len());
            assert("MACRO8"@[0] != "UNLOCK"@[0]);
            assert("MACRO8"@.len() != "HIDE"@.len());
            assert("MACRO8"@.len() != "SHOW"@.len());
            assert("MACRO8"@.len() != "STARTUP"@.len());
            assert("MACRO8"@.len() != "ALARM"@.len());
            assert("MACRO8"@[0] != "CUSTOM"@[0]);
            assert("MACRO8"@[0] != "INCHAT"@[0]);
            assert("MACRO8"@.len() != "PROPCHANGE"@.len());
            assert("MACRO8"@.len() != "ENTER"@.len());
            assert("MACRO8"@.len() != "LEAVE"@.len());
            assert("MACRO8"@.len() != "OUTCHAT"@.len());
            assert("MACRO8"@[0] != "SIGNON"@[0]);
            assert("MACRO8"@.len() != "SIGNOFF"@.len());
            assert("MACRO8"@[5] != "MACRO0"@[5]);
            assert("MACRO8"@[5] != "MACRO1"@[5]);
            assert("MACRO8"@[5] != "MACRO2"@[5]);
            assert("MACRO8"@[5] != "MACRO3"@[5]);
            assert("MACRO8"@[5] != "MACRO4"@[5]);
            assert("MACRO8"@[5] != "MACRO5"@[5]);
            assert("MACRO8"@[5] != "MACRO6"@[5]);
            assert("MACRO8"@[5] != "MACRO7"@[5]);
        },
        EventType::Macro9 => {
            assert("MACRO9"@[0] != "SELECT"@[0]);
            assert("MACRO9"@.len() != "LOCK"@.len());
            assert("MACRO9"@[0] != "UNLOCK"@[0]);
            assert("MACRO9"@.len() != "HIDE"@.len());
            assert("MACRO9"@.len() != "SHOW"@.len());
            assert("MACRO9"@.len() != "STARTUP"@.len());
            assert("MACRO9"@.len() != "ALARM"@.len());
            assert("MACRO9"@[0] != "CUSTOM"@[0]);
            assert("MACRO9"@[0] != "INCHAT"@[0]);
            assert("MACRO9"@.len() != "PROPCHANGE"@.len());
            assert("MACRO9"@.len() != "ENTER"@.len());
            assert("MACRO9"@.len() != "LEAVE"@.len());
            assert("MACRO9"@.len() != "OUTCHAT"@.len());
            assert("MACRO9"@[0] != "SIGNON"@[0]);
            assert("MACRO9"@.len() != "SIGNOFF"@.len());
            assert("MACRO9"@[5] != "MACRO0"@[5]);
            assert("MACRO9"@[5] != "MACRO1"@[5]);
            assert("MACRO9"@[5] != "MACRO2"@[5]);
            assert("MACRO9"@[5] != "MACRO3"@[5]);
            assert("MACRO9"@[5] != "MACRO4"@[5]);
            assert("MACRO9"@[5] != "MACRO5"@[5]);
            assert("MACRO9"@[5] != "MACRO6"@[5]);
            assert("MACRO9"@[5] != "MACRO7"@[5]);
            assert("MACRO9"@[5] != "MACRO8"@[5]);
        },
    }

    if is_ascii_chars(s) {
        lemma_ascii_upper_idempotent(s);
    }
}

impl EventType {
    /// The event mask holding just this event.
    pub fn to_mask(self) -> (m: EventMask)
        ensures
            m@ == event_bit(self),
    {
        match self {
            EventType::Select => EventMask::SELECT(),
            EventType::Lock => EventMask::LOCK(),
            EventType::Unlock => EventMask::UNLOCK(),
            EventType::Hide => EventMask::HIDE(),
            EventType::Show => EventMask::SHOW(),
            EventType::Startup => EventMask::STARTUP(),
            EventType::Alarm => EventMask::ALARM(),
            EventType::Custom => EventMask::CUSTOM(),
            EventType::InChat => EventMask::INCHAT(),
            EventType::PropChange => EventMask::PROPCHANGE(),
            EventType::Enter => EventMask::ENTER(),
            EventType::Leave => EventMask::LEAVE(),
            EventType::OutChat => EventMask::OUTCHAT(),
            EventType::SignOn => EventMask::SIGNON(),
            EventType::SignOff => EventMask::SIGNOFF(),
            EventType::Macro0 => EventMask::MACRO0(),
            EventType::Macro1 => EventMask::MACRO1(),
            EventType::Macro2 => EventMask::MACRO2(),
            EventType::Macro3 => EventMask::MACRO3(),
            EventType::Macro4 => EventMask::MACRO4(),
            EventType::Macro5 => EventMask::MACRO5(),
            EventType::Macro6 => EventMask::MACRO6(),
            EventType::Macro7 => EventMask::MACRO7(),
            EventType::Macro8 => EventMask::MACRO8(),
            EventType::Macro9 => EventMask::MACRO9(),
        }
    }

    /// The event of a name, case-insensitively.
    pub fn from_name(name: &str) -> (e: Option<EventType>)
        ensures
            e == event_of_upper(upper_text(name@)),
            is_ascii_chars(name@) ==> e == event_of_upper(ascii_upper(name@)),
    {
        let up = to_uppercase(name);
        let u = up.as_str();
        if str_eq(u, "SELECT") { Some(EventType::Select) }
        else if str_eq(u, "LOCK") { Some(EventType::Lock) }
        else if str_eq(u, "UNLOCK") { Some(EventType::Unlock) }
        else if str_eq(u, "HIDE") { Some(EventType::Hide) }
        else if str_eq(u, "SHOW") { Some(EventType::Show) }
        else if str_eq(u, "STARTUP") { Some(EventType::Startup) }
        else if str_eq(u, "ALARM") { Some(EventType::Alarm) }
        else if str_eq(u, "CUSTOM") { Some(EventType::Custom) }
        else if str_eq(u, "INCHAT") { Some(EventType::InChat) }
        else if str_eq(u, "PROPCHANGE") { Some(EventType::PropChange) }
        else if str_eq(u, "ENTER") { Some(EventType::Enter) }
        else if str_eq(u, "LEAVE") { Some(EventType::Leave) }
        else if str_eq(u, "OUTCHAT") { Some(EventType::OutChat) }
        else if str_eq(u, "SIGNON") { Some(EventType::SignOn) }
        else if str_eq(u, "SIGNOFF") { Some(EventType::SignOff) }
        else if str_eq(u, "MACRO0") { Some(EventType::Macro0) }
        else if str_eq(u, "MACRO1") { Some(EventType::Macro1) }
        else if str_eq(u, "MACRO2") { Some(EventType::Macro2) }
        else if str_eq(u, "MACRO3") { Some(EventType::Macro3) }
        else if str_eq(u, "MACRO4") { Some(EventType::Macro4) }
        else if str_eq(u, "MACRO5") { Some(EventType::Macro5) }
        else if str_eq(u, "MACRO6") { Some(EventType::Macro6) }
        else if str_eq(u, "MACRO7") { Some(EventType::Macro7) }
        else if str_eq(u, "MACRO8") { Some(EventType::Macro8) }
        else if str_eq(u, "MACRO9") { Some(EventType::Macro9) }
        else { None }
    }

    /// The name of this event.
    pub fn name(self) -> (s: &'static str)
        ensures
            s@ == event_name(self),
    {
        match self {
            EventType::Select => "SELECT",
            EventType::Lock => "LOCK",
            EventType::Unlock => "UNLOCK",
            EventType::Hide => "HIDE",
            EventType::Show => "SHOW",
            EventType::Startup => "STARTUP",
            EventType::Alarm => "ALARM",
            EventType::Custom => "CUSTOM",
            EventType::InChat => "INCHAT",
            EventType::PropChange => "PROPCHANGE",
            EventType::Enter => "ENTER",
            EventType::Leave => "LEAVE",
            EventType::OutChat => "OUTCHAT",
            EventType::SignOn => "SIGNON",
            EventType::SignOff => "SIGNOFF",
            EventType::Macro0 => "MACRO0",
            EventType::Macro1 => "MACRO1",
            EventType::Macro2 => "MACRO2",
            EventType::Macro3 => "MACRO3",
            EventType::Macro4 => "MACRO4",
            EventType::Macro5 => "MACRO5",
            EventType::Macro6 => "MACRO6",
            EventType::Macro7 => "MACRO7",
            EventType::Macro8 => "MACRO8",
            EventType::Macro9 => "MACRO9",
        }
    }
}

/// Every event's name is read back as the event.
pub proof fn lemma_name_roundtrip(e: EventType)
    ensures
        event_of_upper(event_name(e)) == Some(e),
{
    reveal_strlit("SELECT");
    reveal_strlit("LOCK");
    reveal_strlit("UNLOCK");
    reveal_strlit("HIDE");
    reveal_strlit("SHOW");
    reveal_strlit("STARTUP");
    reveal_strlit("ALARM");
    reveal_strlit("CUSTOM");
    reveal_strlit("INCHAT");
    reveal_strlit("PROPCHANGE");
    reveal_strlit("ENTER");
    reveal_strlit("LEAVE");
    reveal_strlit("OUTCHAT");
    reveal_strlit("SIGNON");
    reveal_strlit("SIGNOFF");
    reveal_strlit("MACRO0");
    reveal_strlit("MACRO1");
    reveal_strlit("MACRO2");
    reveal_strlit("MACRO3");
    reveal_strlit("MACRO4");
    reveal_strlit("MACRO5");
    reveal_strlit("MACRO6");
    reveal_strlit("MACRO7");
    reveal_strlit("MACRO8");
    reveal_strlit("MACRO9");
    match e {
        EventType::Select => {
        },
        EventType::Lock => {
            assert("LOCK"@ != "SELECT"@) by { assert("LOCK"@.len() != "SELECT"@.len()); }
        },
        EventType::Unlock => {
            assert("UNLOCK"@ != "SELECT"@) by { assert("UNLOCK"@[0] != "SELECT"@[0]); }
            assert("UNLOCK"@ != "LOCK"@) by { assert("UNLOCK"@.len() != "LOCK"@.len()); }
        },
        EventType::Hide => {
            assert("HIDE"@ != "SELECT"@) by { assert("HIDE"@.len() != "SELECT"@.len()); }
            assert("HIDE"@ != "LOCK"@) by { assert("HIDE"@[0] != "LOCK"@[0]); }
            assert("HIDE"@ != "UNLOCK"@) by { assert("HIDE"@.len() != "UNLOCK"@.len()); }
        },
        EventType::Show => {
            assert("SHOW"@ != "SELECT"@) by { assert("SHOW"@.len() != "SELECT"@.len()); }
            assert("SHOW"@ != "LOCK"@) by { assert("SHOW"@[0] != "LOCK"@[0]); }
            assert("SHOW"@ != "UNLOCK"@) by { assert("SHOW"@.len() != "UNLOCK"@.len()); }
            assert("SHOW"@ != "HIDE"@) by { assert("SHOW"@[0] != "HIDE"@[0]); }
        },
        EventType::Startup => {
            assert("STARTUP"@ != "SELECT"@) by { assert("STARTUP"@.len() != "SELECT"@.len()); }
            assert("STARTUP"@ != "LOCK"@) by { assert("STARTUP"@.len() != "LOCK"@.len()); }
            assert("STARTUP"@ != "UNLOCK"@) by { assert("STARTUP"@.len() != "UNLOCK"@.len()); }
            assert("STARTUP"@ != "HIDE"@) by { assert("STARTUP"@.len() != "HIDE"@.len()); }
            assert("STARTUP"@ != "SHOW"@) by { assert("STARTUP"@.len() != "SHOW"@.len()); }
        },
        EventType::Alarm => {
            assert("ALARM"@ != "SELECT"@) by { assert("ALARM"@.len() != "SELECT"@.len()); }
            assert("ALARM"@ != "LOCK"@) by { assert("ALARM"@.len() != "LOCK"@.len()); }
            assert("ALARM"@ != "UNLOCK"@) by { assert("ALARM"@.len() != "UNLOCK"@.len()); }
            assert("ALARM"@ != "HIDE"@) by { assert("ALARM"@.len() != "HIDE"@.len()); }
            assert("ALARM"@ != "SHOW"@) by { assert("ALARM"@.len() != "SHOW"@.len()); }
            assert("ALARM"@ != "STARTUP"@) by { assert("ALARM"@.len() != "STARTUP"@.len()); }
        },
        EventType::Custom => {
            assert("CUSTOM"@ != "SELECT"@) by { assert("CUSTOM"@[0] != "SELECT"@[0]); }
            assert("CUSTOM"@ != "LOCK"@) by { assert("CUSTOM"@.len() != "LOCK"@.len()); }
            assert("CUSTOM"@ != "UNLOCK"@) by { assert("CUSTOM"@[0] != "UNLOCK"@[0]); }
            assert("CUSTOM"@ != "HIDE"@) by { assert("CUSTOM"@.len() != "HIDE"@.len()); }
            assert("CUSTOM"@ != "SHOW"@) by { assert("CUSTOM"@.len() != "SHOW"@.len()); }
            assert("CUSTOM"@ != "STARTUP"@) by { assert("CUSTOM"@.len() != "STARTUP"@.len()); }
            assert("CUSTOM"@ != "ALARM"@) by { assert("CUSTOM"@.len() != "ALARM"@.len()); }
        },
        EventType::InChat => {
            assert("INCHAT"@ != "SELECT"@) by { assert("INCHAT"@[0] != "SELECT"@[0]); }
            assert("INCHAT"@ != "LOCK"@) by { assert("INCHAT"@.len() != "LOCK"@.len()); }
            assert("INCHAT"@ != "UNLOCK"@) by { assert("INCHAT"@[0] != "UNLOCK"@[0]); }
            assert("INCHAT"@ != "HIDE"@) by { assert("INCHAT"@.len() != "HIDE"@.len()); }
            assert("INCHAT"@ != "SHOW"@) by { assert("INCHAT"@.len() != "SHOW"@.len()); }
            assert("INCHAT"@ != "STARTUP"@) by { assert("INCHAT"@.len() != "STARTUP"@.len()); }
            assert("INCHAT"@ != "ALARM"@) by { assert("INCHAT"@.len() != "ALARM"@.len()); }
            assert("INCHAT"@ != "CUSTOM"@) by { assert("INCHAT"@[0] != "CUSTOM"@[0]); }
        },
        EventType::PropChange => {
            assert("PROPCHANGE"@ != "SELECT"@) by { assert("PROPCHANGE"@.len() != "SELECT"@.len()); }
            assert("PROPCHANGE"@ != "LOCK"@) by { assert("PROPCHANGE"@.len() != "LOCK"@.len()); }
            assert("PROPCHANGE"@ != "UNLOCK"@) by { assert("PROPCHANGE"@.len() != "UNLOCK"@.len()); }
            assert("PROPCHANGE"@ != "HIDE"@) by { assert("PROPCHANGE"@.len() != "HIDE"@.len()); }
            assert("PROPCHANGE"@ != "SHOW"@) by { assert("PROPCHANGE"@.len() != "SHOW"@.len()); }
            assert("PROPCHANGE"@ != "STARTUP"@) by { assert("PROPCHANGE"@.len() != "STARTUP"@.len()); }
            assert("PROPCHANGE"@ != "ALARM"@) by { assert("PROPCHANGE"@.len() != "ALARM"@.len()); }
            assert("PROPCHANGE"@ != "CUSTOM"@) by { assert("PROPCHANGE"@.len() != "CUSTOM"@.len()); }
            assert("PROPCHANGE"@ != "INCHAT"@) by { assert("PROPCHANGE"@.len() != "INCHAT"@.len()); }
        },
        EventType::Enter => {
            assert("ENTER"@ != "SELECT"@) by { assert("ENTER"@.len() != "SELECT"@.len()); }
            assert("ENTER"@ != "LOCK"@) by { assert("ENTER"@.len() != "LOCK"@.len()); }
            assert("ENTER"@ != "UNLOCK"@) by { assert("ENTER"@.len() != "UNLOCK"@.len()); }
            assert("ENTER"@ != "HIDE"@) by { assert("ENTER"@.len() != "HIDE"@.len()); }
            assert("ENTER"@ != "SHOW"@) by { assert("ENTER"@.len() != "SHOW"@.len()); }
            assert("ENTER"@ != "STARTUP"@) by { assert("ENTER"@.len() != "STARTUP"@.len()); }
            assert("ENTER"@ != "ALARM"@) by { assert("ENTER"@[0] != "ALARM"@[0]); }
            assert("ENTER"@ != "CUSTOM"@) by { assert("ENTER"@.len() != "CUSTOM"@.len()); }
            assert("ENTER"@ != "INCHAT"@) by { assert("ENTER"@.len() != "INCHAT"@.len()); }
            assert("ENTER"@ != "PROPCHANGE"@) by { assert("ENTER"@.len() != "PROPCHANGE"@.len()); }
        },
        EventType::Leave => {
            assert("LEAVE"@ != "SELECT"@) by { assert("LEAVE"@.len() != "SELECT"@.len()); }
            assert("LEAVE"@ != "LOCK"@) by { assert("LEAVE"@.len() != "LOCK"@.len()); }
            assert("LEAVE"@ != "UNLOCK"@) by { assert("LEAVE"@.len() != "UNLOCK"@.len()); }
            assert("LEAVE"@ != "HIDE"@) by { assert("LEAVE"@.len() != "HIDE"@.len()); }
            assert("LEAVE"@ != "SHOW"@) by { assert("LEAVE"@.len() != "SHOW"@.len()); }
            assert("LEAVE"@ != "STARTUP"@) by { assert("LEAVE"@.len() != "STARTUP"@.len()); }
            assert("LEAVE"@ != "ALARM"@) by { assert("LEAVE"@[0] != "ALARM"@[0]); }
            assert("LEAVE"@ != "CUSTOM"@) by { assert("LEAVE"@.len() != "CUSTOM"@.len()); }
            assert("LEAVE"@ != "INCHAT"@) by { assert("LEAVE"@.len() != "INCHAT"@.len()); }
            assert("LEAVE"@ != "PROPCHANGE"@) by { assert("LEAVE"@.len() != "PROPCHANGE"@.len()); }
            assert("LEAVE"@ != "ENTER"@) by { assert("LEAVE"@[0] != "ENTER"@[0]); }
        },
        EventType::OutChat => {
            assert("OUTCHAT"@ != "SELECT"@) by { assert("OUTCHAT"@.len() != "SELECT"@.len()); }
            assert("OUTCHAT"@ != "LOCK"@) by { assert("OUTCHAT"@.len() != "LOCK"@.len()); }
            assert("OUTCHAT"@ != "UNLOCK"@) by { assert("OUTCHAT"@.len() != "UNLOCK"@.len()); }
            assert("OUTCHAT"@ != "HIDE"@) by { assert("OUTCHAT"@.len() != "HIDE"@.len()); }
            assert("OUTCHAT"@ != "SHOW"@) by { assert("OUTCHAT"@.len() != "SHOW"@.len()); }
            assert("OUTCHAT"@ != "STARTUP"@) by { assert("OUTCHAT"@[0] != "STARTUP"@[0]); }
            assert("OUTCHAT"@ != "ALARM"@) by { assert("OUTCHAT"@.len() != "ALARM"@.len()); }
            assert("OUTCHAT"@ != "CUSTOM"@) by { assert("OUTCHAT"@.len() != "CUSTOM"@.len()); }
            assert("OUTCHAT"@ != "INCHAT"@) by { assert("OUTCHAT"@.len() != "INCHAT"@.len()); }
            assert("OUTCHAT"@ != "PROPCHANGE"@) by { assert("OUTCHAT"@.len() != "PROPCHANGE"@.len()); }
            assert("OUTCHAT"@ != "ENTER"@) by { assert("OUTCHAT"@.len() != "ENTER"@.len()); }
            assert("OUTCHAT"@ != "LEAVE"@) by { assert("OUTCHAT"@.len() != "LEAVE"@.len()); }
        },
        EventType::SignOn => {
            assert("SIGNON"@ != "SELECT"@) by { assert("SIGNON"@[1] != "SELECT"@[1]); }
            assert("SIGNON"@ != "LOCK"@) by { assert("SIGNON"@.len() != "LOCK"@.len()); }
            assert("SIGNON"@ != "UNLOCK"@) by { assert("SIGNON"@[0] != "UNLOCK"@[0]); }
            assert("SIGNON"@ != "HIDE"@) by { assert("SIGNON"@.len() != "HIDE"@.len()); }
            assert("SIGNON"@ != "SHOW"@) by { assert("SIGNON"@.len() != "SHOW"@.len()); }
            assert("SIGNON"@ != "STARTUP"@) by { assert("SIGNON"@.len() != "STARTUP"@.len()); }
            assert("SIGNON"@ != "ALARM"@) by { assert("SIGNON"@.len() != "ALARM"@.len()); }
            assert("SIGNON"@ != "CUSTOM"@) by { assert("SIGNON"@[0] != "CUSTOM"@[0]); }
            assert("SIGNON"@ != "INCHAT"@) by { assert("SIGNON"@[0] != "INCHAT"@[0]); }
            assert("SIGNON"@ != "PROPCHANGE"@) by { assert("SIGNON"@.len() != "PROPCHANGE"@.len()); }
            assert("SIGNON"@ != "ENTER"@) by { assert("SIGNON"@.len() != "ENTER"@.len()); }
            assert("SIGNON"@ != "LEAVE"@) by { assert("SIGNON"@.len() != "LEAVE"@.len()); }
            assert("SIGNON"@ != "OUTCHAT"@) by { assert("SIGNON"@.len() != "OUTCHAT"@.len()); }
        },
        EventType::SignOff => {
            assert("SIGNOFF"@ != "SELECT"@) by { assert("SIGNOFF"@.len() != "SELECT"@.len()); }
            assert("SIGNOFF"@ != "LOCK"@) by { assert("SIGNOFF"@.len() != "LOCK"@.len()); }
            assert("SIGNOFF"@ != "UNLOCK"@) by { assert("SIGNOFF"@.len() != "UNLOCK"@.len()); }
            assert("SIGNOFF"@ != "HIDE"@) by { assert("SIGNOFF"@.len() != "HIDE"@.len()); }
            assert("SIGNOFF"@ != "SHOW"@) by { assert("SIGNOFF"@.len() != "SHOW"@.len()); }
            assert("SIGNOFF"@ != "STARTUP"@) by { assert("SIGNOFF"@[1] != "STARTUP"@[1]); }
            assert("SIGNOFF"@ != "ALARM"@) by { assert("SIGNOFF"@.len() != "ALARM"@.len()); }
            assert("SIGNOFF"@ != "CUSTOM"@) by { assert("SIGNOFF"@.len() != "CUSTOM"@.len()); }
            assert("SIGNOFF"@ != "INCHAT"@) by { assert("SIGNOFF"@.len() != "INCHAT"@.len()); }
            assert("SIGNOFF"@ != "PROPCHANGE"@) by { assert("SIGNOFF"@.len() != "PROPCHANGE"@.len()); }
            assert("SIGNOFF"@ != "ENTER"@) by { assert("SIGNOFF"@.len() != "ENTER"@.len()); }
            assert("SIGNOFF"@ != "LEAVE"@) by { assert("SIGNOFF"@.len() != "LEAVE"@.len()); }
            assert("SIGNOFF"@ != "OUTCHAT"@) by { assert("SIGNOFF"@[0] != "OUTCHAT"@[0]); }
            assert("SIGNOFF"@ != "SIGNON"@) by { assert("SIGNOFF"@.len() != "SIGNON"@.len()); }
        },
        EventType::Macro0 => {
            assert("MACRO0"@ != "SELECT"@) by { assert("MACRO0"@[0] != "SELECT"@[0]); }
            assert("MACRO0"@ != "LOCK"@) by { assert("MACRO0"@.len() != "LOCK"@.len()); }
            assert("MACRO0"@ != "UNLOCK"@) by { assert("MACRO0"@[0] != "UNLOCK"@[0]); }
            assert("MACRO0"@ != "HIDE"@) by { assert("MACRO0"@.len() != "HIDE"@.len()); }
            assert("MACRO0"@ != "SHOW"@) by { assert("MACRO0"@.len() != "SHOW"@.len()); }
            assert("MACRO0"@ != "STARTUP"@) by { assert("MACRO0"@.len() != "STARTUP"@.len()); }
            assert("MACRO0"@ != "ALARM"@) by { assert("MACRO0"@.len() != "ALARM"@.len()); }
            assert("MACRO0"@ != "CUSTOM"@) by { assert("MACRO0"@[0] != "CUSTOM"@[0]); }
            assert("MACRO0"@ != "INCHAT"@) by { assert("MACRO0"@[0] != "INCHAT"@[0]); }
            assert("MACRO0"@ != "PROPCHANGE"@) by { assert("MACRO0"@.len() != "PROPCHANGE"@.len()); }
            assert("MACRO0"@ != "ENTER"@) by { assert("MACRO0"@.len() != "ENTER"@.len()); }
            assert("MACRO0"@ != "LEAVE"@) by { assert("MACRO0"@.len() != "LEAVE"@.len()); }
            assert("MACRO0"@ != "OUTCHAT"@) by { assert("MACRO0"@.len() != "OUTCHAT"@.len()); }
            assert("MACRO0"@ != "SIGNON"@) by { assert("MACRO0"@[0] != "SIGNON"@[0]); }
            assert("MACRO0"@ != "SIGNOFF"@) by { assert("MACRO0"@.len() != "SIGNOFF"@.len()); }
        },
        EventType::Macro1 => {
            assert("MACRO1"@ != "SELECT"@) by { assert("MACRO1"@[0] != "SELECT"@[0]); }
            assert("MACRO1"@ != "LOCK"@) by { assert("MACRO1"@.len() != "LOCK"@.len()); }
            assert("MACRO1"@ != "UNLOCK"@) by { assert("MACRO1"@[0] != "UNLOCK"@[0]); }
            assert("MACRO1"@ != "HIDE"@) by { assert("MACRO1"@.len() != "HIDE"@.len()); }
            assert("MACRO1"@ != "SHOW"@) by { assert("MACRO1"@.len() != "SHOW"@.len()); }
            assert("MACRO1"@ != "STARTUP"@) by { assert("MACRO1"@.len() != "STARTUP"@.len()); }
            assert("MACRO1"@ != "ALARM"@) by { assert("MACRO1"@.len() != "ALARM"@.len()); }
            assert("MACRO1"@ != "CUSTOM"@) by { assert("MACRO1"@[0] != "CUSTOM"@[0]); }
            assert("MACRO1"@ != "INCHAT"@) by { assert("MACRO1"@[0] != "INCHAT"@[0]); }
            assert("MACRO1"@ != "PROPCHANGE"@) by { assert("MACRO1"@.len() != "PROPCHANGE"@.len()); }
            assert("MACRO1"@ != "ENTER"@) by { assert("MACRO1"@.len() != "ENTER"@.len()); }
            assert("MACRO1"@ != "LEAVE"@) by { assert("MACRO1"@.len() != "LEAVE"@.len()); }
            assert("MACRO1"@ != "OUTCHAT"@) by { assert("MACRO1"@.len() != "OUTCHAT"@.len()); }
            assert("MACRO1"@ != "SIGNON"@) by { assert("MACRO1"@[0] != "SIGNON"@[0]); }
            assert("MACRO1"@ != "SIGNOFF"@) by { assert("MACRO1"@.len() != "SIGNOFF"@.len()); }
            assert("MACRO1"@ != "MACRO0"@) by { assert("MACRO1"@[5] != "MACRO0"@[5]); }
        },
        EventType::Macro2 => {
            assert("MACRO2"@ != "SELECT"@) by { assert("MACRO2"@[0] != "SELECT"@[0]); }
            assert("MACRO2"@ != "LOCK"@) by { assert("MACRO2"@.len() != "LOCK"@.len()); }
            assert("MACRO2"@ != "UNLOCK"@) by { assert("MACRO2"@[0] != "UNLOCK"@[0]); }
            assert("MACRO2"@ != "HIDE"@) by { assert("MACRO2"@.len() != "HIDE"@.len()); }
            assert("MACRO2"@ != "SHOW"@) by { assert("MACRO2"@.len() != "SHOW"@.len()); }
            assert("MACRO2"@ != "STARTUP"@) by { assert("MACRO2"@.len() != "STARTUP"@.len()); }
            assert("MACRO2"@ != "ALARM"@) by { assert("MACRO2"@.len() != "ALARM"@.len()); }
            assert("MACRO2"@ != "CUSTOM"@) by { assert("MACRO2"@[0] != "CUSTOM"@[0]); }
            assert("MACRO2"@ != "INCHAT"@) by { assert("MACRO2"@[0] != "INCHAT"@[0]); }
            assert("MACRO2"@ != "PROPCHANGE"@) by { assert("MACRO2"@.len() != "PROPCHANGE"@.len()); }
            assert("MACRO2"@ != "ENTER"@) by { assert("MACRO2"@.len() != "ENTER"@.len()); }
            assert("MACRO2"@ != "LEAVE"@) by { assert("MACRO2"@.len() != "LEAVE"@.len()); }
            assert("MACRO2"@ != "OUTCHAT"@) by { assert("MACRO2"@.len() != "OUTCHAT"@.len()); }
            assert("MACRO2"@ != "SIGNON"@) by { assert("MACRO2"@[0] != "SIGNON"@[0]); }
            assert("MACRO2"@ != "SIGNOFF"@) by { assert("MACRO2"@.len() != "SIGNOFF"@.len()); }
            assert("MACRO2"@ != "MACRO0"@) by { assert("MACRO2"@[5] != "MACRO0"@[5]); }
            assert("MACRO2"@ != "MACRO1"@) by { assert("MACRO2"@[5] != "MACRO1"@[5]); }
        },
        EventType::Macro3 => {
            assert("MACRO3"@ != "SELECT"@) by { assert("MACRO3"@[0] != "SELECT"@[0]); }
            assert("MACRO3"@ != "LOCK"@) by { assert("MACRO3"@.len() != "LOCK"@.len()); }
            assert("MACRO3"@ != "UNLOCK"@) by { assert("MACRO3"@[0] != "UNLOCK"@[0]); }
            assert("MACRO3"@ != "HIDE"@) by { assert("MACRO3"@.len() != "HIDE"@.len()); }
            assert("MACRO3"@ != "SHOW"@) by { assert("MACRO3"@.len() != "SHOW"@.len()); }
            assert("MACRO3"@ != "STARTUP"@) by { assert("MACRO3"@.len() != "STARTUP"@.len()); }
            assert("MACRO3"@ != "ALARM"@) by { assert("MACRO3"@.len() != "ALARM"@.len()); }
            assert("MACRO3"@ != "CUSTOM"@) by { assert("MACRO3"@[0] != "CUSTOM"@[0]); }
            assert("MACRO3"@ != "INCHAT"@) by { assert("MACRO3"@[0] != "INCHAT"@[0]); }
            assert("MACRO3"@ != "PROPCHANGE"@) by { assert("MACRO3"@.len() != "PROPCHANGE"@.len()); }
            assert("MACRO3"@ != "ENTER"@) by { assert("MACRO3"@.len() != "ENTER"@.len()); }
            assert("MACRO3"@ != "LEAVE"@) by { assert("MACRO3"@.len() != "LEAVE"@.len()); }
            assert("MACRO3"@ != "OUTCHAT"@) by { assert("MACRO3"@.len() != "OUTCHAT"@.len()); }
            assert("MACRO3"@ != "SIGNON"@) by { assert("MACRO3"@[0] != "SIGNON"@[0]); }
            assert("MACRO3"@ != "SIGNOFF"@) by { assert("MACRO3"@.len() != "SIGNOFF"@.len()); }
            assert("MACRO3"@ != "MACRO0"@) by { assert("MACRO3"@[5] != "MACRO0"@[5]); }
            assert("MACRO3"@ != "MACRO1"@) by { assert("MACRO3"@[5] != "MACRO1"@[5]); }
            assert("MACRO3"@ != "MACRO2"@) by { assert("MACRO3"@[5] != "MACRO2"@[5]); }
        },
        EventType::Macro4 => {
            assert("MACRO4"@ != "SELECT"@) by { assert("MACRO4"@[0] != "SELECT"@[0]); }
            assert("MACRO4"@ != "LOCK"@) by { assert("MACRO4"@.len() != "LOCK"@.len()); }
            assert("MACRO4"@ != "UNLOCK"@) by { assert("MACRO4"@[0] != "UNLOCK"@[0]); }
            assert("MACRO4"@ != "HIDE"@) by { assert("MACRO4"@.len() != "HIDE"@.len()); }
            assert("MACRO4"@ != "SHOW"@) by { assert("MACRO4"@.len() != "SHOW"@.len()); }
            assert("MACRO4"@ != "STARTUP"@) by { assert("MACRO4"@.len() != "STARTUP"@.len()); }
            assert("MACRO4"@ != "ALARM"@) by { assert("MACRO4"@.len() != "ALARM"@.len()); }
            assert("MACRO4"@ != "CUSTOM"@) by { assert("MACRO4"@[0] != "CUSTOM"@[0]); }
            assert("MACRO4"@ != "INCHAT"@) by { assert("MACRO4"@[0] != "INCHAT"@[0]); }
            assert("MACRO4"@ != "PROPCHANGE"@) by { assert("MACRO4"@.len() != "PROPCHANGE"@.len()); }
            assert("MACRO4"@ != "ENTER"@) by { assert("MACRO4"@.len() != "ENTER"@.len()); }
            assert("MACRO4"@ != "LEAVE"@) by { assert("MACRO4"@.len() != "LEAVE"@.len()); }
            assert("MACRO4"@ != "OUTCHAT"@) by { assert("MACRO4"@.len() != "OUTCHAT"@.len()); }
            assert("MACRO4"@ != "SIGNON"@) by { assert("MACRO4"@[0] != "SIGNON"@[0]); }
            assert("MACRO4"@ != "SIGNOFF"@) by { assert("MACRO4"@.len() != "SIGNOFF"@.len()); }
            assert("MACRO4"@ != "MACRO0"@) by { assert("MACRO4"@[5] != "MACRO0"@[5]); }
            assert("MACRO4"@ != "MACRO1"@) by { assert("MACRO4"@[5] != "MACRO1"@[5]); }
            assert("MACRO4"@ != "MACRO2"@) by { assert("MACRO4"@[5] != "MACRO2"@[5]); }
            assert("MACRO4"@ != "MACRO3"@) by { assert("MACRO4"@[5] != "MACRO3"@[5]); }
        },
        EventType::Macro5 => {
            assert("MACRO5"@ != "SELECT"@) by { assert("MACRO5"@[0] != "SELECT"@[0]); }
            assert("MACRO5"@ != "LOCK"@) by { assert("MACRO5"@.len() != "LOCK"@.len()); }
            assert("MACRO5"@ != "UNLOCK"@) by { assert("MACRO5"@[0] != "UNLOCK"@[0]); }
            assert("MACRO5"@ != "HIDE"@) by { assert("MACRO5"@.len() != "HIDE"@.len()); }
            assert("MACRO5"@ != "SHOW"@) by { assert("MACRO5"@.len() != "SHOW"@.len()); }
            assert("MACRO5"@ != "STARTUP"@) by { assert("MACRO5"@.len() != "STARTUP"@.len()); }
            assert("MACRO5"@ != "ALARM"@) by { assert("MACRO5"@.len() != "ALARM"@.len()); }
            assert("MACRO5"@ != "CUSTOM"@) by { assert("MACRO5"@[0] != "CUSTOM"@[0]); }
            assert("MACRO5"@ != "INCHAT"@) by { assert("MACRO5"@[0] != "INCHAT"@[0]); }
            assert("MACRO5"@ != "PROPCHANGE"@) by { assert("MACRO5"@.len() != "PROPCHANGE"@.len()); }
            assert("MACRO5"@ != "ENTER"@) by { assert("MACRO5"@.len() != "ENTER"@.len()); }
            assert("MACRO5"@ != "LEAVE"@) by { assert("MACRO5"@.len() != "LEAVE"@.len()); }
            assert("MACRO5"@ != "OUTCHAT"@) by { assert("MACRO5"@.len() != "OUTCHAT"@.len()); }
            assert("MACRO5"@ != "SIGNON"@) by { assert("MACRO5"@[0] != "SIGNON"@[0]); }
            assert("MACRO5"@ != "SIGNOFF"@) by { assert("MACRO5"@.len() != "SIGNOFF"@.len()); }
            assert("MACRO5"@ != "MACRO0"@) by { assert("MACRO5"@[5] != "MACRO0"@[5]); }
            assert("MACRO5"@ != "MACRO1"@) by { assert("MACRO5"@[5] != "MACRO1"@[5]); }
            assert("MACRO5"@ != "MACRO2"@) by { assert("MACRO5"@[5] != "MACRO2"@[5]); }
            assert("MACRO5"@ != "MACRO3"@) by { assert("MACRO5"@[5] != "MACRO3"@[5]); }
            assert("MACRO5"@ != "MACRO4"@) by { assert("MACRO5"@[5] != "MACRO4"@[5]); }
        },
        EventType::Macro6 => {
            assert("MACRO6"@ != "SELECT"@) by { assert("MACRO6"@[0] != "SELECT"@[0]); }
            assert("MACRO6"@ != "LOCK"@) by { assert("MACRO6"@.len() != "LOCK"@.len()); }
            assert("MACRO6"@ != "UNLOCK"@) by { assert("MACRO6"@[0] != "UNLOCK"@[0]); }
            assert("MACRO6"@ != "HIDE"@) by { assert("MACRO6"@.len() != "HIDE"@.len()); }
            assert("MACRO6"@ != "SHOW"@) by { assert("MACRO6"@.len() != "SHOW"@.len()); }
            assert("MACRO6"@ != "STARTUP"@) by { assert("MACRO6"@.len() != "STARTUP"@.len()); }
            assert("MACRO6"@ != "ALARM"@) by { assert("MACRO6"@.len() != "ALARM"@.len()); }
            assert("MACRO6"@ != "CUSTOM"@) by { assert("MACRO6"@[0] != "CUSTOM"@[0]); }
            assert("MACRO6"@ != "INCHAT"@) by { assert("MACRO6"@[0] != "INCHAT"@[0]); }
            assert("MACRO6"@ != "PROPCHANGE"@) by { assert("MACRO6"@.len() != "PROPCHANGE"@.len()); }
            assert("MACRO6"@ != "ENTER"@) by { assert("MACRO6"@.len() != "ENTER"@.len()); }
            assert("MACRO6"@ != "LEAVE"@) by { assert("MACRO6"@.len() != "LEAVE"@.len()); }
            assert("MACRO6"@ != "OUTCHAT"@) by { assert("MACRO6"@.len() != "OUTCHAT"@.len()); }
            assert("MACRO6"@ != "SIGNON"@) by { assert("MACRO6"@[0] != "SIGNON"@[0]); }
            assert("MACRO6"@ != "SIGNOFF"@) by { assert("MACRO6"@.len() != "SIGNOFF"@.len()); }
            assert("MACRO6"@ != "MACRO0"@) by { assert("MACRO6"@[5] != "MACRO0"@[5]); }
            assert("MACRO6"@ != "MACRO1"@) by { assert("MACRO6"@[5] != "MACRO1"@[5]); }
            assert("MACRO6"@ != "MACRO2"@) by { assert("MACRO6"@[5] != "MACRO2"@[5]); }
            assert("MACRO6"@ != "MACRO3"@) by { assert("MACRO6"@[5] != "MACRO3"@[5]); }
            assert("MACRO6"@ != "MACRO4"@) by { assert("MACRO6"@[5] != "MACRO4"@[5]); }
            assert("MACRO6"@ != "MACRO5"@) by { assert("MACRO6"@[5] != "MACRO5"@[5]); }
        },
        EventType::Macro7 => {
            assert("MACRO7"@ != "SELECT"@) by { assert("MACRO7"@[0] != "SELECT"@[0]); }
            assert("MACRO7"@ != "LOCK"@) by { assert("MACRO7"@.len() != "LOCK"@.len()); }
            assert("MACRO7"@ != "UNLOCK"@) by { assert("MACRO7"@[0] != "UNLOCK"@[0]); }
            assert("MACRO7"@ != "HIDE"@) by { assert("MACRO7"@.len() != "HIDE"@.len()); }
            assert("MACRO7"@ != "SHOW"@) by { assert("MACRO7"@.len() != "SHOW"@.len()); }
            assert("MACRO7"@ != "STARTUP"@) by { assert("MACRO7"@.len() != "STARTUP"@.len()); }
            assert("MACRO7"@ != "ALARM"@) by { assert("MACRO7"@.len() != "ALARM"@.len()); }
            assert("MACRO7"@ != "CUSTOM"@) by { assert("MACRO7"@[0] != "CUSTOM"@[0]); }
            assert("MACRO7"@ != "INCHAT"@) by { assert("MACRO7"@[0] != "INCHAT"@[0]); }
            assert("MACRO7"@ != "PROPCHANGE"@) by { assert("MACRO7"@.len() != "PROPCHANGE"@.len()); }
            assert("MACRO7"@ != "ENTER"@) by { assert("MACRO7"@.len() != "ENTER"@.len()); }
            assert("MACRO7"@ != "LEAVE"@) by { assert("MACRO7"@.len() != "LEAVE"@.len()); }
            assert("MACRO7"@ != "OUTCHAT"@) by { assert("MACRO7"@.len() != "OUTCHAT"@.len()); }
            assert("MACRO7"@ != "SIGNON"@) by { assert("MACRO7"@[0] != "SIGNON"@[0]); }
            assert("MACRO7"@ != "SIGNOFF"@) by { assert("MACRO7"@.len() != "SIGNOFF"@.len()); }
            assert("MACRO7"@ != "MACRO0"@) by { assert("MACRO7"@[5] != "MACRO0"@[5]); }
            assert("MACRO7"@ != "MACRO1"@) by { assert("MACRO7"@[5] != "MACRO1"@[5]); }
            assert("MACRO7"@ != "MACRO2"@) by { assert("MACRO7"@[5] != "MACRO2"@[5]); }
            assert("MACRO7"@ != "MACRO3"@) by { assert("MACRO7"@[5] != "MACRO3"@[5]); }
            assert("MACRO7"@ != "MACRO4"@) by { assert("MACRO7"@[5] != "MACRO4"@[5]); }
            assert("MACRO7"@ != "MACRO5"@) by { assert("MACRO7"@[5] != "MACRO5"@[5]); }
            assert("MACRO7"@ != "MACRO6"@) by { assert("MACRO7"@[5] != "MACRO6"@[5]); }
        },
        EventType::Macro8 => {
            assert("MACRO8"@ != "SELECT"@) by { assert("MACRO8"@[0] != "SELECT"@[0]); }
            assert("MACRO8"@ != "LOCK"@) by { assert("MACRO8"@.len() != "LOCK"@.len()); }
            assert("MACRO8"@ != "UNLOCK"@) by { assert("MACRO8"@[0] != "UNLOCK"@[0]); }
            assert("MACRO8"@ != "HIDE"@) by { assert("MACRO8"@.len() != "HIDE"@.len()); }
            assert("MACRO8"@ != "SHOW"@) by { assert("MACRO8"@.len() != "SHOW"@.len()); }
            assert("MACRO8"@ != "STARTUP"@) by { assert("MACRO8"@.len() != "STARTUP"@.len()); }
            assert("MACRO8"@ != "ALARM"@) by { assert("MACRO8"@.len() != "ALARM"@.len()); }
            assert("MACRO8"@ != "CUSTOM"@) by { assert("MACRO8"@[0] != "CUSTOM"@[0]); }
            assert("MACRO8"@ != "INCHAT"@) by { assert("MACRO8"@[0] != "INCHAT"@[0]); }
            assert("MACRO8"@ != "PROPCHANGE"@) by { assert("MACRO8"@.len() != "PROPCHANGE"@.len()); }
            assert("MACRO8"@ != "ENTER"@) by { assert("MACRO8"@.len() != "ENTER"@.len()); }
            assert("MACRO8"@ != "LEAVE"@) by { assert("MACRO8"@.len() != "LEAVE"@.len()); }
            assert("MACRO8"@ != "OUTCHAT"@) by { assert("MACRO8"@.len() != "OUTCHAT"@.len()); }
            assert("MACRO8"@ != "SIGNON"@) by { assert("MACRO8"@[0] != "SIGNON"@[0]); }
            assert("MACRO8"@ != "SIGNOFF"@) by { assert("MACRO8"@.len() != "SIGNOFF"@.len()); }
            assert("MACRO8"@ != "MACRO0"@) by { assert("MACRO8"@[5] != "MACRO0"@[5]); }
            assert("MACRO8"@ != "MACRO1"@) by { assert("MACRO8"@[5] != "MACRO1"@[5]); }
            assert("MACRO8"@ != "MACRO2"@) by { assert("MACRO8"@[5] != "MACRO2"@[5]); }
            assert("MACRO8"@ != "MACRO3"@) by { assert("MACRO8"@[5] != "MACRO3"@[5]); }
            assert("MACRO8"@ != "MACRO4"@) by { assert("MACRO8"@[5] != "MACRO4"@[5]); }
            assert("MACRO8"@ != "MACRO5"@) by { assert("MACRO8"@[5] != "MACRO5"@[5]); }
            assert("MACRO8"@ != "MACRO6"@) by { assert("MACRO8"@[5] != "MACRO6"@[5]); }
            assert("MACRO8"@ != "MACRO7"@) by { assert("MACRO8"@[5] != "MACRO7"@[5]); }
        },
        EventType::Macro9 => {
            assert("MACRO9"@ != "SELECT"@) by { assert("MACRO9"@[0] != "SELECT"@[0]); }
            assert("MACRO9"@ != "LOCK"@) by { assert("MACRO9"@.len() != "LOCK"@.len()); }
            assert("MACRO9"@ != "UNLOCK"@) by { assert("MACRO9"@[0] != "UNLOCK"@[0]); }
            assert("MACRO9"@ != "HIDE"@) by { assert("MACRO9"@.len() != "HIDE"@.len()); }
            assert("MACRO9"@ != "SHOW"@) by { assert("MACRO9"@.len() != "SHOW"@.len()); }
            assert("MACRO9"@ != "STARTUP"@) by { assert("MACRO9"@.len() != "STARTUP"@.len()); }
            assert("MACRO9"@ != "ALARM"@) by { assert("MACRO9"@.len() != "ALARM"@.len()); }
            assert("MACRO9"@ != "CUSTOM"@) by { assert("MACRO9"@[0] != "CUSTOM"@[0]); }
            assert("MACRO9"@ != "INCHAT"@) by { assert("MACRO9"@[0] != "INCHAT"@[0]); }
            assert("MACRO9"@ != "PROPCHANGE"@) by { assert("MACRO9"@.len() != "PROPCHANGE"@.len()); }
            assert("MACRO9"@ != "ENTER"@) by { assert("MACRO9"@.len() != "ENTER"@.len()); }
            assert("MACRO9"@ != "LEAVE"@) by { assert("MACRO9"@.len() != "LEAVE"@.len()); }
            assert("MACRO9"@ != "OUTCHAT"@) by { assert("MACRO9"@.len() != "OUTCHAT"@.len()); }
            assert("MACRO9"@ != "SIGNON"@) by { assert("MACRO9"@[0] != "SIGNON"@[0]); }
            assert("MACRO9"@ != "SIGNOFF"@) by { assert("MACRO9"@.len() != "SIGNOFF"@.len()); }
            assert("MACRO9"@ != "MACRO0"@) by { assert("MACRO9"@[5] != "MACRO0"@[5]); }
            assert("MACRO9"@ != "MACRO1"@) by { assert("MACRO9"@[5] != "MACRO1"@[5]); }
            assert("MACRO9"@ != "MACRO2"@) by { assert("MACRO9"@[5] != "MACRO2"@[5]); }
            assert("MACRO9"@ != "MACRO3"@) by { assert("MACRO9"@[5] != "MACRO3"@[5]); }
            assert("MACRO9"@ != "MACRO4"@) by { assert("MACRO9"@[5] != "MACRO4"@[5]); }
            assert("MACRO9"@ != "MACRO5"@) by { assert("MACRO9"@[5] != "MACRO5"@[5]); }
            assert("MACRO9"@ != "MACRO6"@) by { assert("MACRO9"@[5] != "MACRO6"@[5]); }
            assert("MACRO9"@ != "MACRO7"@) by { assert("MACRO9"@[5] != "MACRO7"@[5]); }
            assert("MACRO9"@ != "MACRO8"@) by { assert("MACRO9"@[5] != "MACRO8"@[5]); }
        },
    }
}

/// Distinct events have distinct, single bits.
pub proof fn lemma_event_bits_distinct(a: EventType, b: EventType)
    ensures
        event_bit(a) != 0,
        a != b ==> event_bit(a) & event_bit(b) == 0,
        (event_bit(a) as int) < 0x2000000,
{
    let x = event_bit(a);
    let y = event_bit(b);
    assert(a != b ==> x != y);
    assert(x == 0x1u32 || x == 0x2u32 || x == 0x4u32 || x == 0x8u32 || x == 0x10u32 || x == 0x20u32
        || x == 0x40u32 || x == 0x80u32 || x == 0x100u32 || x == 0x200u32 || x == 0x400u32
        || x == 0x800u32 || x == 0x1000u32 || x == 0x2000u32 || x == 0x4000u32 || x == 0x8000u32
        || x == 0x10000u32 || x == 0x20000u32 || x == 0x40000u32 || x == 0x80000u32
        || x == 0x100000u32 || x == 0x200000u32 || x == 0x400000u32 || x == 0x800000u32
        || x == 0x1000000u32);
    assert(y == 0x1u32 || y == 0x2u32 || y == 0x4u32 || y == 0x8u32 || y == 0x10u32 || y == 0x20u32
        || y == 0x40u32 || y == 0x80u32 || y == 0x100u32 || y == 0x200u32 || y == 0x400u32
        || y == 0x800u32 || y == 0x1000u32 || y == 0x2000u32 || y == 0x4000u32 || y == 0x8000u32
        || y == 0x10000u32 || y == 0x20000u32 || y == 0x40000u32 || y == 0x80000u32
        || y == 0x100000u32 || y == 0x200000u32 || y == 0x400000u32 || y == 0x800000u32
        || y == 0x1000000u32);
    assert(x != y ==> x & y == 0) by (bit_vector)
        requires
            x == 0x1u32 || x == 0x2u32 || x == 0x4u32 || x == 0x8u32 || x == 0x10u32 || x == 0x20u32
            || x == 0x40u32 || x == 0x80u32 || x == 0x100u32 || x == 0x200u32 || x == 0x400u32
            || x == 0x800u32 || x == 0x1000u32 || x == 0x2000u32 || x == 0x4000u32 || x == 0x8000u32
            || x == 0x10000u32 || x == 0x20000u32 || x == 0x40000u32 || x == 0x80000u32
            || x == 0x100000u32 || x == 0x200000u32 || x == 0x400000u32 || x == 0x800000u32
            || x == 0x1000000u32,
            y == 0x1u32 || y == 0x2u32 || y == 0x4u32 || y == 0x8u32 || y == 0x10u32 || y == 0x20u32
            || y == 0x40u32 || y == 0x80u32 || y == 0x100u32 || y == 0x200u32 || y == 0x400u32
            || y == 0x800u32 || y == 0x1000u32 || y == 0x2000u32 || y == 0x4000u32 || y == 0x8000u32
            || y == 0x10000u32 || y == 0x20000u32 || y == 0x40000u32 || y == 0x80000u32
            || y == 0x100000u32 || y == 0x200000u32 || y == 0x400000u32 || y == 0x800000u32
            || y == 0x1000000u32;
}

} // verus!
