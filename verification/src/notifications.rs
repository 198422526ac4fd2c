//! Notification settings: the global setting composed from the server's
//! default modes, and the changes of room settings sent to the application.
use vstd::prelude::*;

use crate::builder::{room_builder_event, unchanged_room_builder, RoomChangeEventBuilder, RoomChangeEventBuilderView};
use crate::chat::{GlobalSettings, NotificationSetting, RoomChangeEvent, RoomChangeEventView, RoomSettings};
use crate::memory_cache::CachedNotificationSettings;
use crate::strmap::StrMap;

verus! {

/// The notification mode that the server keeps for rooms.
#[derive(Debug, Clone, Copy, PartialEq, Eq, Structural)]
pub enum RoomNotificationMode {
    /// Notify on every message.
    AllMessages,
    /// Notify on mentions and keywords only.
    MentionsAndKeywordsOnly,
    /// Never notify.
    Mute,
}

/// The setting that the application is given for a mode.
pub open spec fn setting_of_mode(mode: RoomNotificationMode) -> NotificationSetting {
    match mode {
        RoomNotificationMode::AllMessages => NotificationSetting::AllMessages,
        RoomNotificationMode::Mute => NotificationSetting::Mute,
        RoomNotificationMode::MentionsAndKeywordsOnly => NotificationSetting::MentionsAndKeywordsOnly,
    }
}

/// The setting that the application is given for a mode.
pub fn matrix_notification_mode_to_chat_notification_settings(notification_mode: RoomNotificationMode) -> (r: NotificationSetting)
    ensures
        r == setting_of_mode(notification_mode),
{
    match notification_mode {
        RoomNotificationMode::AllMessages => NotificationSetting::AllMessages,
        RoomNotificationMode::Mute => NotificationSetting::Mute,
        RoomNotificationMode::MentionsAndKeywordsOnly => NotificationSetting::MentionsAndKeywordsOnly,
    }
}

/// The setting after one more default mode is taken into account: the more
/// permissive of the setting and the mode's, where mute, mentions and all
/// messages are ever more permissive, as their codes rise.
pub open spec fn applied_mode(setting: NotificationSetting, mode: RoomNotificationMode) -> NotificationSetting {
    if setting_of_mode(mode).spec_code() > setting.spec_code() {
        setting_of_mode(mode)
    } else {
        setting
    }
}

/// Takes one more default mode into account.
pub fn apply_notification_mode(setting: &mut NotificationSetting, mode: RoomNotificationMode)
    ensures
        *final(setting) == applied_mode(*old(setting), mode),
{
    if *setting == NotificationSetting::AllMessages {
        return;
    }
    if mode == RoomNotificationMode::AllMessages {
        *setting = NotificationSetting::AllMessages;
        return;
    }
    if mode == RoomNotificationMode::MentionsAndKeywordsOnly {
        *setting = NotificationSetting::MentionsAndKeywordsOnly;
        return;
    }
}

/// The global setting composed from the default modes, taken in order
/// from a muted start.
pub open spec fn composed_setting(modes: Seq<RoomNotificationMode>) -> NotificationSetting
    decreases modes.len(),
{
    if modes.len() == 0 {
        NotificationSetting::Mute
    } else {
        applied_mode(composed_setting(modes.drop_last()), modes.last())
    }
}

/// The most permissive setting of the modes: all messages where one mode
/// is for all messages, else mentions where one is for mentions, else mute.
pub open spec fn most_permissive(modes: Seq<RoomNotificationMode>) -> NotificationSetting {
    if modes.contains(RoomNotificationMode::AllMessages) {
        NotificationSetting::AllMessages
    } else if modes.contains(RoomNotificationMode::MentionsAndKeywordsOnly) {
        NotificationSetting::MentionsAndKeywordsOnly
    } else {
        NotificationSetting::Mute
    }
}

/// The global setting is the most permissive of the default modes,
/// whatever their order.
pub proof fn lemma_composed_is_most_permissive(modes: Seq<RoomNotificationMode>)
    ensures
        composed_setting(modes) == most_permissive(modes),
    decreases modes.len(),
{
    if modes.len() > 0 {
        let init = modes.drop_last();
        lemma_composed_is_most_permissive(init);
        assert(modes =~= init.push(modes.last()));
        assert forall|m: RoomNotificationMode| modes.contains(m) <==> (init.contains(m) || modes.last() == m) by {
            if modes.contains(m) {
                let i = choose|i: int| 0 <= i < modes.len() && modes[i] == m;
                if i < modes.len() - 1 {
                    assert(init[i] == m);
                }
            }
            if init.contains(m) {
                let i = choose|i: int| 0 <= i < init.len() && init[i] == m;
                assert(modes[i] == m);
            }
            if modes.last() == m {
                assert(modes[modes.len() - 1] == m);
            }
        }
    } else {
        assert(!modes.contains(RoomNotificationMode::AllMessages));
        assert(!modes.contains(RoomNotificationMode::MentionsAndKeywordsOnly));
    }
}

/// The kinds of room whose default modes make up the global setting, as
/// (encrypted, one-to-one), in the order they are read.
pub open spec fn default_mode_room_kinds_spec() -> Seq<(bool, bool)> {
    seq![(true, false), (false, false), (true, true), (false, true)]
}

/// The kinds of room whose default modes make up the global setting, as
/// (encrypted, one-to-one), in the order they are read.
pub fn default_mode_room_kinds() -> (r: Vec<(bool, bool)>)
    ensures
        r@ == default_mode_room_kinds_spec(),
{
    let r = vec![(true, false), (false, false), (true, true), (false, true)];
    proof {
        assert(r@ =~= default_mode_room_kinds_spec());
    }
    r
}

/// The global setting composed from the default modes of the kinds of room,
/// in order: the most permissive of them.
pub fn compose_global_notification_settings(modes: &Vec<RoomNotificationMode>) -> (r: NotificationSetting)
    ensures
        r == composed_setting(modes@),
        r == most_permissive(modes@),
{
    let mut result = NotificationSetting::Mute;
    let mut i: usize = 0;
    while i < modes.len()
        invariant
            i <= modes@.len(),
            result == composed_setting(modes@.take(i as int)),
        decreases modes.len() - i,
    {
        proof {
            assert(modes@.take((i + 1) as int).drop_last() =~= modes@.take(i as int));
        }
        apply_notification_mode(&mut result, modes[i]);
        i = i + 1;
    }
    proof {
        assert(modes@.take(i as int) =~= modes@);
        lemma_composed_is_most_permissive(modes@);
    }
    result
}

// ---------------------------------------------------------------------------
// Changes of settings
// ---------------------------------------------------------------------------

/// The event for a changed global setting.
pub fn global_settings_event(new: NotificationSetting) -> (r: GlobalSettings)
    ensures
        r.notification_setting == new.spec_code(),
{
    GlobalSettings { notification_setting: new.to_i32() }
}

/// The room settings for a room's own notification setting, or for none.
pub open spec fn settings_for(setting: Option<NotificationSetting>) -> RoomSettings {
    RoomSettings {
        notification_setting: match setting {
            Some(s) => Some(s.spec_code()),
            None => None,
        },
    }
}

/// The change event of the room for its new notification setting: its own
/// setting, or none where it follows the global one again.
pub fn room_settings_event(room_id: String, setting: Option<NotificationSetting>) -> (r: RoomChangeEvent)
    ensures
        r@ == room_builder_event(
            RoomChangeEventBuilderView {
                room_settings: Some(settings_for(setting)),
                ..unchanged_room_builder(room_id@)
            },
        ),
{
    let room_settings = RoomSettings {
        notification_setting: match setting {
            Some(s) => Some(s.to_i32()),
            None => None,
        },
    };
    RoomChangeEventBuilder::new(room_id).change_room_settings(room_settings).to_proto()
}

/// The rooms of the entries that are new against the old settings, with
/// their setting, in order.
pub open spec fn added_settings(
    old: Map<Seq<char>, NotificationSetting>,
    s: Seq<(Seq<char>, NotificationSetting)>,
) -> Seq<(Seq<char>, Option<NotificationSetting>)>
    decreases s.len(),
{
    if s.len() == 0 {
        Seq::empty()
    } else {
        let rest = added_settings(old, s.drop_last());
        let e = s.last();
        if !old.contains_key(e.0) {
            rest.push((e.0, Some(e.1)))
        } else {
            rest
        }
    }
}

/// The rooms of the old entries that the new settings no longer hold, in
/// order, with no setting.
pub open spec fn removed_settings(
    new: Map<Seq<char>, NotificationSetting>,
    s: Seq<(Seq<char>, NotificationSetting)>,
) -> Seq<(Seq<char>, Option<NotificationSetting>)>
    decreases s.len(),
{
    if s.len() == 0 {
        Seq::empty()
    } else {
        let rest = removed_settings(new, s.drop_last());
        let e = s.last();
        if !new.contains_key(e.0) {
            rest.push((e.0, None))
        } else {
            rest
        }
    }
}

/// The rooms of the entries whose setting differs from the old one, with
/// the new setting, in order.
pub open spec fn changed_settings(
    old: Map<Seq<char>, NotificationSetting>,
    s: Seq<(Seq<char>, NotificationSetting)>,
) -> Seq<(Seq<char>, Option<NotificationSetting>)>
    decreases s.len(),
{
    if s.len() == 0 {
        Seq::empty()
    } else {
        let rest = changed_settings(old, s.drop_last());
        let e = s.last();
        if old.contains_key(e.0) && old[e.0] != e.1 {
            rest.push((e.0, Some(e.1)))
        } else {
            rest
        }
    }
}

/// The room settings that changed between the old and the new settings:
/// first the rooms that got a setting of their own, then those that lost
/// it, then those whose setting changed, each group in the order of its
/// map.
pub open spec fn room_setting_changes(
    old: StrMap<NotificationSetting>,
    new: StrMap<NotificationSetting>,
) -> Seq<(Seq<char>, Option<NotificationSetting>)> {
    added_settings(old@, new.entries_view()) + removed_settings(new@, old.entries_view())
        + changed_settings(old@, new.entries_view())
}

/// The room and the setting of each change, by the room's characters.
pub open spec fn changes_view(v: Seq<(String, Option<NotificationSetting>)>) -> Seq<(Seq<char>, Option<NotificationSetting>)> {
    v.map_values(|e: (String, Option<NotificationSetting>)| (e.0@, e.1))
}

/// The changes of the rooms' own settings between the old and the new
/// settings; see `room_setting_changes`.
pub fn compare_room_changes(old: &StrMap<NotificationSetting>, new: &StrMap<NotificationSetting>) -> (r: Vec<(String, Option<NotificationSetting>)>)
    ensures
        changes_view(r@) == room_setting_changes(*old, *new),
{
    let mut result: Vec<(String, Option<NotificationSetting>)> = Vec::new();
    let n = new.len();
    let mut i: usize = 0;
    while i < n
        invariant
            i <= n,
            n == new.spec_len(),
            changes_view(result@) == added_settings(old@, new.entries_view().take(i as int)),
        decreases n - i,
    {
        let (k, v) = new.entry_at(i);
        let present = old.contains_key(k.as_str());
        proof {
            assert(new.entries_view().take((i + 1) as int).drop_last() =~= new.entries_view().take(i as int));
        }
        if !present {
            let ghost before = result@;
            result.push((k.clone(), Some(*v)));
            proof {
                assert(changes_view(result@) =~= changes_view(before).push((k@, Some(*v))));
            }
        }
        i = i + 1;
    }
    proof {
        assert(new.entries_view().take(n as int) =~= new.entries_view());
    }
    let ghost added = changes_view(result@);
    let m = old.len();
    let mut j: usize = 0;
    while j < m
        invariant
            j <= m,
            m == old.spec_len(),
            changes_view(result@) == added + removed_settings(new@, old.entries_view().take(j as int)),
        decreases m - j,
    {
        let (k, _) = old.entry_at(j);
        let present = new.contains_key(k.as_str());
        proof {
            assert(old.entries_view().take((j + 1) as int).drop_last() =~= old.entries_view().take(j as int));
        }
        if !present {
            let ghost before = result@;
            result.push((k.clone(), None));
            proof {
                assert(changes_view(result@) =~= changes_view(before).push((k@, None)));
            }
        }
        j = j + 1;
    }
    proof {
        assert(old.entries_view().take(m as int) =~= old.entries_view());
    }
    let ghost added_removed = changes_view(result@);
    let mut l: usize = 0;
    while l < n
        invariant
            l <= n,
            n == new.spec_len(),
            changes_view(result@) == added_removed + changed_settings(old@, new.entries_view().take(l as int)),
        decreases n - l,
    {
        let (k, v) = new.entry_at(l);
        let previous = old.get(k.as_str());
        proof {
            assert(new.entries_view().take((l + 1) as int).drop_last() =~= new.entries_view().take(l as int));
        }
        match previous {
            Some(p) => {
                if *p != *v {
                    let ghost before = result@;
                    result.push((k.clone(), Some(*v)));
                    proof {
                        assert(changes_view(result@) =~= changes_view(before).push((k@, Some(*v))));
                    }
                }
            },
            None => {},
        }
        l = l + 1;
    }
    proof {
        assert(new.entries_view().take(n as int) =~= new.entries_view());
    }
    result
}


/// The settings of the rooms that have a mode of their own, by room ID: the
/// rooms without one are left out; where a room is listed twice, the later
/// entry counts.
pub open spec fn room_settings_map(rooms: Seq<(String, Option<RoomNotificationMode>)>) -> Map<Seq<char>, NotificationSetting>
    decreases rooms.len(),
{
    if rooms.len() == 0 {
        Map::empty()
    } else {
        let rest = room_settings_map(rooms.drop_last());
        match rooms.last().1 {
            Some(m) => rest.insert(rooms.last().0@, setting_of_mode(m)),
            None => rest,
        }
    }
}

/// The settings of the rooms that have a mode of their own, by room ID.
pub fn load_room_settings(rooms: Vec<(String, Option<RoomNotificationMode>)>) -> (r: StrMap<NotificationSetting>)
    ensures
        r@ == room_settings_map(rooms@),
{
    let ghost all = rooms@;
    let mut result: StrMap<NotificationSetting> = StrMap::new();
    let mut rest = rooms;
    let n = rest.len();
    let mut i: usize = 0;
    while i < n
        invariant
            n == all.len(),
            i <= n,
            rest@ == all.skip(i as int),
            result@ == room_settings_map(all.take(i as int)),
        decreases n - i,
    {
        let (room_id, mode) = rest.remove(0);
        proof {
            assert(all.take((i + 1) as int).drop_last() =~= all.take(i as int));
            assert(all.take((i + 1) as int).last() == all[i as int]);
            assert(all.skip((i + 1) as int) =~= all.skip(i as int).skip(1));
        }
        if let Some(m) = mode {
            result.insert(room_id, matrix_notification_mode_to_chat_notification_settings(m));
        }
        i = i + 1;
    }
    proof {
        assert(all.take(n as int) =~= all);
    }
    result
}

/// The events for a change of the notification settings: the new global
/// setting where it changed, and the change of each room whose own setting
/// changed, in the order of `room_setting_changes`.
pub fn notification_change_events(old: &CachedNotificationSettings, new: &CachedNotificationSettings) -> (r: (
    Option<GlobalSettings>,
    Vec<RoomChangeEvent>,
))
    ensures
        old.global_settings == new.global_settings ==> r.0 is None,
        old.global_settings != new.global_settings ==> (r.0 matches Some(g) && g.notification_setting
            == new.global_settings.spec_code()),
        r.1@.len() == room_setting_changes(old.room_settings, new.room_settings).len(),
        forall|i: int|
            0 <= i < r.1@.len() ==> #[trigger] r.1@[i]@ == room_builder_event(
                RoomChangeEventBuilderView {
                    room_settings: Some(settings_for(room_setting_changes(old.room_settings, new.room_settings)[i].1)),
                    ..unchanged_room_builder(room_setting_changes(old.room_settings, new.room_settings)[i].0)
                },
            ),
{
    let global = if old.global_settings != new.global_settings {
        Some(global_settings_event(new.global_settings))
    } else {
        None
    };
    let changes = compare_room_changes(&old.room_settings, &new.room_settings);
    let ghost cs = room_setting_changes(old.room_settings, new.room_settings);
    let mut events: Vec<RoomChangeEvent> = Vec::new();
    let mut rest = changes;
    let ghost all = rest@;
    let n = rest.len();
    let mut i: usize = 0;
    while i < n
        invariant
            n == all.len(),
            changes_view(all) == cs,
            i <= n,
            rest@ == all.skip(i as int),
            events@.len() == i,
            forall|j: int|
                0 <= j < i ==> #[trigger] events@[j]@ == room_builder_event(
                    RoomChangeEventBuilderView {
                        room_settings: Some(settings_for(cs[j].1)),
                        ..unchanged_room_builder(cs[j].0)
                    },
                ),
        decreases n - i,
    {
        let (room_id, setting) = rest.remove(0);
        proof {
            assert(all.skip((i + 1) as int) =~= all.skip(i as int).skip(1));
            assert(cs[i as int] == (all[i as int].0@, all[i as int].1));
        }
        events.push(room_settings_event(room_id, setting));
        i = i + 1;
    }
    (global, events)
}

} // verus!
