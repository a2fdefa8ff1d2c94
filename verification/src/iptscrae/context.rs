//! What a running script sees of the Palace: the user, the room, the event,
//! and the actions it may ask the host to perform.
use vstd::prelude::*;
use crate::iptscrae::events::EventType;
use crate::iptscrae::value::{Value, ValueModel};
use crate::text::str_eq;
use crate::AssetSpec;

verus! {

/// Security level for script execution: it decides which built-in
/// functions a script may call.
#[derive(Debug, Clone, Copy, PartialEq, Eq)]
pub enum SecurityLevel {
    /// Full server privileges (room scripts).
    Server,
    /// Sandboxed cyborg scripts with restricted operations.
    Cyborg,
    /// Administrative scripts with elevated privileges.
    Admin,
}

/// Actions that scripts can ask the host to perform.
///
/// The host implements this trait; nothing is promised of what an
/// implementation does. The built-ins call it only through the `host_*`
/// methods of a context, which record each call, with what it was handed,
/// in the context's `calls`; their contracts say which calls each
/// built-in makes.
pub trait ScriptActions {
    /// Send a message to the room (SAY).
    fn say(&mut self, message: &str);
    /// Send a chat message (CHAT).
    fn chat(&mut self, message: &str);
    /// Send a message visible only to the local user (LOCALMSG).
    fn local_msg(&mut self, message: &str);
    /// Send a message to everyone in the room (ROOMMSG).
    fn room_msg(&mut self, message: &str);
    /// Send a private message to a user (PRIVATEMSG).
    fn private_msg(&mut self, user_id: i32, message: &str);
    /// Navigate to a room (GOTOROOM).
    fn goto_room(&mut self, room_id: i16);
    /// Lock a door (LOCK).
    fn lock_door(&mut self, door_id: i32);
    /// Unlock a door (UNLOCK).
    fn unlock_door(&mut self, door_id: i32);
    /// Set the user's face (SETFACE).
    fn set_face(&mut self, face_id: i16);
    /// Set the user's color (SETCOLOR).
    fn set_color(&mut self, color: i16);
    /// Set the user's props (SETPROPS and friends).
    fn set_props(&mut self, props: Vec<AssetSpec>);
    /// Set the user's position (SETPOS).
    fn set_pos(&mut self, x: i16, y: i16);
    /// Move the user by an offset (MOVE).
    fn move_user(&mut self, dx: i16, dy: i16);
    /// Navigate to a URL (GOTOURL).
    fn goto_url(&mut self, url: &str);
    /// Navigate to a URL in a frame (GOTOURLFRAME).
    fn goto_url_frame(&mut self, url: &str, frame: &str);
    /// Send a message to every user on the server (GLOBALMSG).
    fn global_msg(&mut self, message: &str);
    /// Send a status message (STATUSMSG).
    fn status_msg(&mut self, message: &str);
    /// Send a superuser message (SUSRMSG).
    fn superuser_msg(&mut self, message: &str);
    /// Log a message (LOGMSG).
    fn log_msg(&mut self, message: &str);
    /// Set a spot's state (SETSPOTSTATE).
    fn set_spot_state(&mut self, spot_id: i32, state: i32);
    /// Add a loose prop to the room (ADDLOOSEPROP).
    fn add_loose_prop(&mut self, prop_id: i32, x: i16, y: i16);
    /// Clear the room's loose props (CLEARLOOSEPROPS).
    fn clear_loose_props(&mut self);
    /// Play a sound (SOUND).
    fn play_sound(&mut self, sound_id: i32);
    /// Play a MIDI file (MIDIPLAY).
    fn play_midi(&mut self, midi_id: i32);
    /// Stop MIDI playback (MIDISTOP).
    fn stop_midi(&mut self);
    /// Beep (BEEP).
    fn beep(&mut self);
    /// Launch an application for a URL (LAUNCHAPP).
    fn launch_app(&mut self, url: &str);
}

/// A call of the host, with what it was handed.
pub enum HostCall {
    Say(Seq<char>),
    Chat(Seq<char>),
    LocalMsg(Seq<char>),
    RoomMsg(Seq<char>),
    PrivateMsg(i32, Seq<char>),
    GotoRoom(i16),
    LockDoor(i32),
    UnlockDoor(i32),
    SetFace(i16),
    SetColor(i16),
    SetProps(Seq<AssetSpec>),
    SetPos(i16, i16),
    MoveUser(i16, i16),
    GotoUrl(Seq<char>),
    GotoUrlFrame(Seq<char>, Seq<char>),
    GlobalMsg(Seq<char>),
    StatusMsg(Seq<char>),
    SuperuserMsg(Seq<char>),
    LogMsg(Seq<char>),
    SetSpotState(i32, i32),
    AddLooseProp(i32, i16, i16),
    ClearLooseProps,
    PlaySound(i32),
    PlayMidi(i32),
    StopMidi,
    Beep,
    LaunchApp(Seq<char>),
}

/// The host that does nothing, for tests and scripts run alone.
impl ScriptActions for () {
    fn say(&mut self, message: &str) {}
    fn chat(&mut self, message: &str) {}
    fn local_msg(&mut self, message: &str) {}
    fn room_msg(&mut self, message: &str) {}
    fn private_msg(&mut self, user_id: i32, message: &str) {}
    fn goto_room(&mut self, room_id: i16) {}
    fn lock_door(&mut self, door_id: i32) {}
    fn unlock_door(&mut self, door_id: i32) {}
    fn set_face(&mut self, face_id: i16) {}
    fn set_color(&mut self, color: i16) {}
    fn set_props(&mut self, props: Vec<AssetSpec>) {}
    fn set_pos(&mut self, x: i16, y: i16) {}
    fn move_user(&mut self, dx: i16, dy: i16) {}
    fn goto_url(&mut self, url: &str) {}
    fn goto_url_frame(&mut self, url: &str, frame: &str) {}
    fn global_msg(&mut self, message: &str) {}
    fn status_msg(&mut self, message: &str) {}
    fn superuser_msg(&mut self, message: &str) {}
    fn log_msg(&mut self, message: &str) {}
    fn set_spot_state(&mut self, spot_id: i32, state: i32) {}
    fn add_loose_prop(&mut self, prop_id: i32, x: i16, y: i16) {}
    fn clear_loose_props(&mut self) {}
    fn play_sound(&mut self, sound_id: i32) {}
    fn play_midi(&mut self, midi_id: i32) {}
    fn stop_midi(&mut self) {}
    fn beep(&mut self) {}
    fn launch_app(&mut self, url: &str) {}
}

// ---------------------------------------------------------------------------
// Named values
// ---------------------------------------------------------------------------

/// The index of the first entry named `k`.
pub open spec fn find_key(entries: Seq<(String, Value)>, k: Seq<char>) -> Option<int>
    decreases entries.len(),
{
    if entries.len() == 0 {
        None
    } else if entries[0].0@ == k {
        Some(0)
    } else {
        match find_key(entries.drop_first(), k) {
            Some(i) => Some(i + 1),
            None => None,
        }
    }
}

proof fn lemma_find_key(entries: Seq<(String, Value)>, k: Seq<char>)
    ensures
        match find_key(entries, k) {
            Some(i) => 0 <= i < entries.len() && entries[i].0@ == k
                && forall|j: int| 0 <= j < i ==> #[trigger] entries[j].0@ != k,
            None => forall|j: int| 0 <= j < entries.len() ==> #[trigger] entries[j].0@ != k,
        },
    decreases entries.len(),
{
    if entries.len() > 0 {
        lemma_find_key(entries.drop_first(), k);
        if entries[0].0@ != k {
            assert forall|j: int| 1 <= j < entries.len() implies #[trigger] entries[j].0@ == entries.drop_first()[j - 1].0@ by {}
        }
    }
}

proof fn lemma_find_key_is(entries: Seq<(String, Value)>, k: Seq<char>, i: int)
    requires
        0 <= i < entries.len(),
        entries[i].0@ == k,
        forall|j: int| 0 <= j < i ==> #[trigger] entries[j].0@ != k,
    ensures
        find_key(entries, k) == Some(i),
    decreases entries.len(),
{
    if i > 0 {
        let rest = entries.drop_first();
        assert forall|j: int| 0 <= j < i - 1 implies #[trigger] rest[j].0@ != k by {
            assert(rest[j] == entries[j + 1]);
        }
        lemma_find_key_is(rest, k, i - 1);
    }
}

proof fn lemma_find_key_none(entries: Seq<(String, Value)>, k: Seq<char>)
    requires
        forall|j: int| 0 <= j < entries.len() ==> #[trigger] entries[j].0@ != k,
    ensures
        find_key(entries, k) is None,
    decreases entries.len(),
{
    if entries.len() > 0 {
        let rest = entries.drop_first();
        assert forall|j: int| 0 <= j < rest.len() implies #[trigger] rest[j].0@ != k by {
            assert(rest[j] == entries[j + 1]);
        }
        lemma_find_key_none(rest, k);
    }
}

/// Values by name, as a list of entries in which a later entry of a name
/// is never found.
pub struct ValueMap {
    entries: Vec<(String, Value)>,
}

impl ValueMap {
    /// The model of the value named `k`, if there is one.
    pub closed spec fn lookup(&self, k: Seq<char>) -> Option<ValueModel> {
        match find_key(self.entries@, k) {
            Some(i) => Some(self.entries@[i].1.model()),
            None => None,
        }
    }

    /// An empty map.
    pub fn new() -> (m: ValueMap)
        ensures
            forall|k: Seq<char>| #[trigger] m.lookup(k) is None,
    {
        let m = ValueMap { entries: Vec::new() };
        proof {
            assert forall|k: Seq<char>| #[trigger] m.lookup(k) is None by {
                lemma_find_key(m.entries@, k);
            }
        }
        m
    }

    fn find(&self, name: &str) -> (r: Option<usize>)
        ensures
            match r {
                Some(i) => find_key(self.entries@, name@) == Some(i as int),
                None => find_key(self.entries@, name@) is None,
            },
    {
        let mut i: usize = 0;
        while i < self.entries.len()
            invariant
                i <= self.entries@.len(),
                forall|j: int| 0 <= j < i ==> #[trigger] self.entries@[j].0@ != name@,
            decreases self.entries@.len() - i,
        {
            if str_eq(self.entries[i].0.as_str(), name) {
                proof {
                    lemma_find_key_is(self.entries@, name@, i as int);
                }
                return Some(i);
            }
            i = i + 1;
        }
        proof {
            lemma_find_key_none(self.entries@, name@);
        }
        None
    }

    /// The value named `name`.
    pub fn get(&self, name: &str) -> (r: Option<&Value>)
        ensures
            match self.lookup(name@) {
                Some(m) => r matches Some(v) && v.model() == m,
                None => r is None,
            },
    {
        proof {
            lemma_find_key(self.entries@, name@);
        }
        match self.find(name) {
            Some(i) => Some(&self.entries[i].1),
            None => None,
        }
    }

    /// Names `value` by `name`, and gives back the value it replaces.
    pub fn insert(&mut self, name: String, value: Value) -> (r: Option<Value>)
        ensures
            final(self).lookup(name@) == Some(value.model()),
            forall|k: Seq<char>| k != name@ ==> #[trigger] final(self).lookup(k) == old(self).lookup(k),
            match old(self).lookup(name@) {
                Some(m) => r matches Some(v) && v.model() == m,
                None => r is None,
            },
    {
        let ghost key = name@;
        let ghost vm = value.model();
        match self.find(name.as_str()) {
            Some(i) => {
                proof {
                    lemma_find_key(old(self).entries@, key);
                }
                let old_entry = self.entries.remove(i);
                self.entries.insert(i, (name, value));
                proof {
                    let e = self.entries@;
                    assert(e =~= old(self).entries@.update(i as int, e[i as int]));
                    lemma_find_key_is(e, key, i as int);
                    assert forall|k: Seq<char>| k != key implies #[trigger] self.lookup(k) == old(self).lookup(k) by {
                        lemma_find_key(old(self).entries@, k);
                        lemma_find_key(e, k);
                        match find_key(old(self).entries@, k) {
                            Some(j) => {
                                assert(j != i);
                                lemma_find_key_is(e, k, j);
                            },
                            None => {
                                lemma_find_key_none(e, k);
                            },
                        }
                    }
                }
                Some(old_entry.1)
            },
            None => {
                self.entries.push((name, value));
                proof {
                    let e = self.entries@;
                    let o = old(self).entries@;
                    lemma_find_key(o, key);
                    lemma_find_key_is(e, key, o.len() as int);
                    assert forall|k: Seq<char>| k != key implies #[trigger] self.lookup(k) == old(self).lookup(k) by {
                        lemma_find_key(o, k);
                        match find_key(o, k) {
                            Some(j) => {
                                lemma_find_key_is(e, k, j);
                            },
                            None => {
                                lemma_find_key_none(e, k);
                            },
                        }
                    }
                }
                None
            },
        }
    }
}

// ---------------------------------------------------------------------------
// The context
// ---------------------------------------------------------------------------

/// Execution context for Iptscrae scripts: the current user, room and
/// event, and the host that performs Palace operations.
pub struct ScriptContext<'a, A: ScriptActions + ?Sized> {
    /// Security level for this script execution.
    pub security_level: SecurityLevel,
    /// Current user ID.
    pub user_id: i32,
    /// Current user name.
    pub user_name: String,
    /// Current user face (avatar) ID.
    pub user_face: i16,
    /// Current user color (roundhead color, 0-15).
    pub user_color: i16,
    /// Current user props.
    pub user_props: Vec<AssetSpec>,
    /// Current user position X coordinate.
    pub user_pos_x: i16,
    /// Current user position Y coordinate.
    pub user_pos_y: i16,
    /// Current room ID.
    pub room_id: i16,
    /// Current room name.
    pub room_name: String,
    /// Name of the server the script runs on.
    pub server_name: String,
    /// Event type that triggered this script.
    pub event_type: EventType,
    /// Event data (hotspot ID, user ID for INCHAT/OUTCHAT, ...).
    pub event_data: ValueMap,
    /// The host that performs Palace operations.
    pub actions: &'a mut A,
    /// The calls made of the host through this context so far, in order.
    pub calls: Ghost<Seq<HostCall>>,
}

/// What a context holds for the built-ins: the user, the room, the server,
/// the event and the event data they look up, and the calls made of the
/// host so far.
pub struct CtxView {
    pub level: SecurityLevel,
    pub user_id: i32,
    pub user_name: Seq<char>,
    pub face: i16,
    pub color: i16,
    pub props: Seq<AssetSpec>,
    pub pos_x: i16,
    pub pos_y: i16,
    pub room_id: i16,
    pub room_name: Seq<char>,
    pub server_name: Seq<char>,
    /// The event that triggered the script.
    pub event: EventType,
    /// The value named "chat_user_id".
    pub chat_user: Option<ValueModel>,
    /// The value named "target_user_id".
    pub target_user: Option<ValueModel>,
    /// The value named "door_id".
    pub door: Option<ValueModel>,
    /// The value named "spot_id".
    pub spot: Option<ValueModel>,
    /// The calls made of the host so far.
    pub calls: Seq<HostCall>,
}

/// The one call `c` where `b` holds, else none.
pub open spec fn call_if(b: bool, c: HostCall) -> Seq<HostCall> {
    if b {
        seq![c]
    } else {
        Seq::empty()
    }
}

impl CtxView {
    /// This view after the host was called with `cs`, in order.
    pub open spec fn called(self, cs: Seq<HostCall>) -> CtxView {
        if cs.len() == 0 {
            self
        } else {
            CtxView { calls: self.calls + cs, ..self }
        }
    }
}

/// Whether a built-in function may run at a security level: cyborg scripts
/// may not call LOCK, UNLOCK or GOTOROOM; everything else is allowed.
pub open spec fn allowed(level: SecurityLevel, name: Seq<char>) -> bool {
    match level {
        SecurityLevel::Cyborg => name != "LOCK"@ && name != "UNLOCK"@ && name != "GOTOROOM"@,
        _ => true,
    }
}

impl<'a, A: ScriptActions + ?Sized> ScriptContext<'a, A> {
    /// A context with the given security level and host, user and room
    /// zero, empty names, no props, and the SELECT event.
    pub fn new(security_level: SecurityLevel, actions: &'a mut A) -> (c: ScriptContext<'a, A>)
        ensures
            c.security_level == security_level,
            c.user_id == 0,
            c.user_name@ == Seq::<char>::empty(),
            c.user_face == 0,
            c.user_color == 0,
            c.user_props@.len() == 0,
            c.user_pos_x == 0,
            c.user_pos_y == 0,
            c.room_id == 0,
            c.room_name@ == Seq::<char>::empty(),
            c.server_name@ == Seq::<char>::empty(),
            c.event_type == EventType::Select,
            forall|k: Seq<char>| #[trigger] c.event_data.lookup(k) is None,
            c.calls@ == Seq::<HostCall>::empty(),
    {
        ScriptContext {
            security_level,
            user_id: 0,
            user_name: String::new(),
            user_face: 0,
            user_color: 0,
            user_props: Vec::new(),
            user_pos_x: 0,
            user_pos_y: 0,
            room_id: 0,
            room_name: String::new(),
            server_name: String::new(),
            event_type: EventType::Select,
            event_data: ValueMap::new(),
            actions,
            calls: Ghost(Seq::empty()),
        }
    }

    /// What the built-ins read of this context.
    pub open spec fn view(&self) -> CtxView {
        CtxView {
            level: self.security_level,
            user_id: self.user_id,
            user_name: self.user_name@,
            face: self.user_face,
            color: self.user_color,
            props: self.user_props@,
            pos_x: self.user_pos_x,
            pos_y: self.user_pos_y,
            room_id: self.room_id,
            room_name: self.room_name@,
            server_name: self.server_name@,
            event: self.event_type,
            chat_user: self.event_data.lookup("chat_user_id"@),
            target_user: self.event_data.lookup("target_user_id"@),
            door: self.event_data.lookup("door_id"@),
            spot: self.event_data.lookup("spot_id"@),
            calls: self.calls@,
        }
    }

    /// Calls the host's `say`, and records the call.
    pub fn host_say(&mut self, message: &str)
        ensures
            final(self).view() == old(self).view().called(seq![HostCall::Say(message@)]),
    {
        self.actions.say(message);
        self.calls = Ghost(self.calls@.push(HostCall::Say(message@)));
        assert(self.calls@ =~= old(self).calls@ + seq![HostCall::Say(message@)]);
    }

    /// Calls the host's `chat`, and records the call.
    pub fn host_chat(&mut self, message: &str)
        ensures
            final(self).view() == old(self).view().called(seq![HostCall::Chat(message@)]),
    {
        self.actions.chat(message);
        self.calls = Ghost(self.calls@.push(HostCall::Chat(message@)));
        assert(self.calls@ =~= old(self).calls@ + seq![HostCall::Chat(message@)]);
    }

    /// Calls the host's `local_msg`, and records the call.
    pub fn host_local_msg(&mut self, message: &str)
        ensures
            final(self).view() == old(self).view().called(seq![HostCall::LocalMsg(message@)]),
    {
        self.actions.local_msg(message);
        self.calls = Ghost(self.calls@.push(HostCall::LocalMsg(message@)));
        assert(self.calls@ =~= old(self).calls@ + seq![HostCall::LocalMsg(message@)]);
    }

    /// Calls the host's `room_msg`, and records the call.
    pub fn host_room_msg(&mut self, message: &str)
        ensures
            final(self).view() == old(self).view().called(seq![HostCall::RoomMsg(message@)]),
    {
        self.actions.room_msg(message);
        self.calls = Ghost(self.calls@.push(HostCall::RoomMsg(message@)));
        assert(self.calls@ =~= old(self).calls@ + seq![HostCall::RoomMsg(message@)]);
    }

    /// Calls the host's `private_msg`, and records the call.
    pub fn host_private_msg(&mut self, user_id: i32, message: &str)
        ensures
            final(self).view() == old(self).view().called(seq![HostCall::PrivateMsg(user_id, message@)]),
    {
        self.actions.private_msg(user_id, message);
        self.calls = Ghost(self.calls@.push(HostCall::PrivateMsg(user_id, message@)));
        assert(self.calls@ =~= old(self).calls@ + seq![HostCall::PrivateMsg(user_id, message@)]);
    }

    /// Calls the host's `goto_room`, and records the call.
    pub fn host_goto_room(&mut self, room_id: i16)
        ensures
            final(self).view() == old(self).view().called(seq![HostCall::GotoRoom(room_id)]),
    {
        self.actions.goto_room(room_id);
        self.calls = Ghost(self.calls@.push(HostCall::GotoRoom(room_id)));
        assert(self.calls@ =~= old(self).calls@ + seq![HostCall::GotoRoom(room_id)]);
    }

    /// Calls the host's `lock_door`, and records the call.
    pub fn host_lock_door(&mut self, door_id: i32)
        ensures
            final(self).view() == old(self).view().called(seq![HostCall::LockDoor(door_id)]),
    {
        self.actions.lock_door(door_id);
        self.calls = Ghost(self.calls@.push(HostCall::LockDoor(door_id)));
        assert(self.calls@ =~= old(self).calls@ + seq![HostCall::LockDoor(door_id)]);
    }

    /// Calls the host's `unlock_door`, and records the call.
    pub fn host_unlock_door(&mut self, door_id: i32)
        ensures
            final(self).view() == old(self).view().called(seq![HostCall::UnlockDoor(door_id)]),
    {
        self.actions.unlock_door(door_id);
        self.calls = Ghost(self.calls@.push(HostCall::UnlockDoor(door_id)));
        assert(self.calls@ =~= old(self).calls@ + seq![HostCall::UnlockDoor(door_id)]);
    }

    /// Calls the host's `set_face`, and records the call.
    pub fn host_set_face(&mut self, face_id: i16)
        ensures
            final(self).view() == old(self).view().called(seq![HostCall::SetFace(face_id)]),
    {
        self.actions.set_face(face_id);
        self.calls = Ghost(self.calls@.push(HostCall::SetFace(face_id)));
        assert(self.calls@ =~= old(self).calls@ + seq![HostCall::SetFace(face_id)]);
    }

    /// Calls the host's `set_color`, and records the call.
    pub fn host_set_color(&mut self, color: i16)
        ensures
            final(self).view() == old(self).view().called(seq![HostCall::SetColor(color)]),
    {
        self.actions.set_color(color);
        self.calls = Ghost(self.calls@.push(HostCall::SetColor(color)));
        assert(self.calls@ =~= old(self).calls@ + seq![HostCall::SetColor(color)]);
    }

    /// Calls the host's `set_props`, and records the call.
    pub fn host_set_props(&mut self, props: Vec<AssetSpec>)
        ensures
            final(self).view() == old(self).view().called(seq![HostCall::SetProps(props@)]),
    {
        let ghost c = HostCall::SetProps(props@);
        self.actions.set_props(props);
        self.calls = Ghost(self.calls@.push(c));
        assert(self.calls@ =~= old(self).calls@ + seq![c]);
    }

    /// Calls the host's `set_pos`, and records the call.
    pub fn host_set_pos(&mut self, x: i16, y: i16)
        ensures
            final(self).view() == old(self).view().called(seq![HostCall::SetPos(x, y)]),
    {
        self.actions.set_pos(x, y);
        self.calls = Ghost(self.calls@.push(HostCall::SetPos(x, y)));
        assert(self.calls@ =~= old(self).calls@ + seq![HostCall::SetPos(x, y)]);
    }

    /// Calls the host's `move_user`, and records the call.
    pub fn host_move_user(&mut self, dx: i16, dy: i16)
        ensures
            final(self).view() == old(self).view().called(seq![HostCall::MoveUser(dx, dy)]),
    {
        self.actions.move_user(dx, dy);
        self.calls = Ghost(self.calls@.push(HostCall::MoveUser(dx, dy)));
        assert(self.calls@ =~= old(self).calls@ + seq![HostCall::MoveUser(dx, dy)]);
    }

    /// Calls the host's `goto_url`, and records the call.
    pub fn host_goto_url(&mut self, url: &str)
        ensures
            final(self).view() == old(self).view().called(seq![HostCall::GotoUrl(url@)]),
    {
        self.actions.goto_url(url);
        self.calls = Ghost(self.calls@.push(HostCall::GotoUrl(url@)));
        assert(self.calls@ =~= old(self).calls@ + seq![HostCall::GotoUrl(url@)]);
    }

    /// Calls the host's `goto_url_frame`, and records the call.
    pub fn host_goto_url_frame(&mut self, url: &str, frame: &str)
        ensures
            final(self).view() == old(self).view().called(seq![HostCall::GotoUrlFrame(url@, frame@)]),
    {
        self.actions.goto_url_frame(url, frame);
        self.calls = Ghost(self.calls@.push(HostCall::GotoUrlFrame(url@, frame@)));
        assert(self.calls@ =~= old(self).calls@ + seq![HostCall::GotoUrlFrame(url@, frame@)]);
    }

    /// Calls the host's `global_msg`, and records the call.
    pub fn host_global_msg(&mut self, message: &str)
        ensures
            final(self).view() == old(self).view().called(seq![HostCall::GlobalMsg(message@)]),
    {
        self.actions.global_msg(message);
        self.calls = Ghost(self.calls@.push(HostCall::GlobalMsg(message@)));
        assert(self.calls@ =~= old(self).calls@ + seq![HostCall::GlobalMsg(message@)]);
    }

    /// Calls the host's `status_msg`, and records the call.
    pub fn host_status_msg(&mut self, message: &str)
        ensures
            final(self).view() == old(self).view().called(seq![HostCall::StatusMsg(message@)]),
    {
        self.actions.status_msg(message);
        self.calls = Ghost(self.calls@.push(HostCall::StatusMsg(message@)));
        assert(self.calls@ =~= old(self).calls@ + seq![HostCall::StatusMsg(message@)]);
    }

    /// Calls the host's `superuser_msg`, and records the call.
    pub fn host_superuser_msg(&mut self, message: &str)
        ensures
            final(self).view() == old(self).view().called(seq![HostCall::SuperuserMsg(message@)]),
    {
        self.actions.superuser_msg(message);
        self.calls = Ghost(self.calls@.push(HostCall::SuperuserMsg(message@)));
        assert(self.calls@ =~= old(self).calls@ + seq![HostCall::SuperuserMsg(message@)]);
    }

    /// Calls the host's `log_msg`, and records the call.
    pub fn host_log_msg(&mut self, message: &str)
        ensures
            final(self).view() == old(self).view().called(seq![HostCall::LogMsg(message@)]),
    {
        self.actions.log_msg(message);
        self.calls = Ghost(self.calls@.push(HostCall::LogMsg(message@)));
        assert(self.calls@ =~= old(self).calls@ + seq![HostCall::LogMsg(message@)]);
    }

    /// Calls the host's `set_spot_state`, and records the call.
    pub fn host_set_spot_state(&mut self, spot_id: i32, state: i32)
        ensures
            final(self).view() == old(self).view().called(seq![HostCall::SetSpotState(spot_id, state)]),
    {
        self.actions.set_spot_state(spot_id, state);
        self.calls = Ghost(self.calls@.push(HostCall::SetSpotState(spot_id, state)));
        assert(self.calls@ =~= old(self).calls@ + seq![HostCall::SetSpotState(spot_id, state)]);
    }

    /// Calls the host's `add_loose_prop`, and records the call.
    pub fn host_add_loose_prop(&mut self, prop_id: i32, x: i16, y: i16)
        ensures
            final(self).view() == old(self).view().called(seq![HostCall::AddLooseProp(prop_id, x, y)]),
    {
        self.actions.add_loose_prop(prop_id, x, y);
        self.calls = Ghost(self.calls@.push(HostCall::AddLooseProp(prop_id, x, y)));
        assert(self.calls@ =~= old(self).calls@ + seq![HostCall::AddLooseProp(prop_id, x, y)]);
    }

    /// Calls the host's `clear_loose_props`, and records the call.
    pub fn host_clear_loose_props(&mut self)
        ensures
            final(self).view() == old(self).view().called(seq![HostCall::ClearLooseProps]),
    {
        self.actions.clear_loose_props();
        self.calls = Ghost(self.calls@.push(HostCall::ClearLooseProps));
        assert(self.calls@ =~= old(self).calls@ + seq![HostCall::ClearLooseProps]);
    }

    /// Calls the host's `play_sound`, and records the call.
    pub fn host_play_sound(&mut self, sound_id: i32)
        ensures
            final(self).view() == old(self).view().called(seq![HostCall::PlaySound(sound_id)]),
    {
        self.actions.play_sound(sound_id);
        self.calls = Ghost(self.calls@.push(HostCall::PlaySound(sound_id)));
        assert(self.calls@ =~= old(self).calls@ + seq![HostCall::PlaySound(sound_id)]);
    }

    /// Calls the host's `play_midi`, and records the call.
    pub fn host_play_midi(&mut self, midi_id: i32)
        ensures
            final(self).view() == old(self).view().called(seq![HostCall::PlayMidi(midi_id)]),
    {
        self.actions.play_midi(midi_id);
        self.calls = Ghost(self.calls@.push(HostCall::PlayMidi(midi_id)));
        assert(self.calls@ =~= old(self).calls@ + seq![HostCall::PlayMidi(midi_id)]);
    }

    /// Calls the host's `stop_midi`, and records the call.
    pub fn host_stop_midi(&mut self)
        ensures
            final(self).view() == old(self).view().called(seq![HostCall::StopMidi]),
    {
        self.actions.stop_midi();
        self.calls = Ghost(self.calls@.push(HostCall::StopMidi));
        assert(self.calls@ =~= old(self).calls@ + seq![HostCall::StopMidi]);
    }

    /// Calls the host's `beep`, and records the call.
    pub fn host_beep(&mut self)
        ensures
            final(self).view() == old(self).view().called(seq![HostCall::Beep]),
    {
        self.actions.beep();
        self.calls = Ghost(self.calls@.push(HostCall::Beep));
        assert(self.calls@ =~= old(self).calls@ + seq![HostCall::Beep]);
    }

    /// Calls the host's `launch_app`, and records the call.
    pub fn host_launch_app(&mut self, url: &str)
        ensures
            final(self).view() == old(self).view().called(seq![HostCall::LaunchApp(url@)]),
    {
        self.actions.launch_app(url);
        self.calls = Ghost(self.calls@.push(HostCall::LaunchApp(url@)));
        assert(self.calls@ =~= old(self).calls@ + seq![HostCall::LaunchApp(url@)]);
    }

    /// Whether a function may be called at this context's security level.
    pub fn is_function_allowed(&self, function_name: &str) -> (b: bool)
        ensures
            b == allowed(self.security_level, function_name@),
    {
        match self.security_level {
            SecurityLevel::Server | SecurityLevel::Admin => true,
            SecurityLevel::Cyborg => !(str_eq(function_name, "LOCK") || str_eq(function_name, "UNLOCK")
                || str_eq(function_name, "GOTOROOM")),
        }
    }
}

} // verus!
