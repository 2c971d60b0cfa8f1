//! What holds of users across several operations.

use vstd::prelude::*;

use crate::str_map::StringMap;
use crate::user::external::{USER_PROPS_KEY_CUSTOM_STATUS, USER_PROPS_KEY_REMOTE_EMAIL};
use crate::user::{User, UserPatch, MENTION_KEYS_NOTIFY_PROP};

verus! {

// ---------------------------------------------------------------------------------------------
// Properties
// ---------------------------------------------------------------------------------------------

/// A property that was set is read back, and every other property reads as before.
pub proof fn set_props_are_read_back(
    new: Option<StringMap>,
    old: Option<StringMap>,
    key: Seq<char>,
    value: Seq<char>,
    other: Seq<char>,
)
    requires
        crate::user::prop_set(new, old, key, value),
    ensures
        crate::user::prop(new, key) == Some(value),
        other != key ==> crate::user::prop(new, other) == crate::user::prop(old, other),
{
    let texts = crate::str_map::texts(new->0@);
    assert(texts.dom().contains(key));
    assert(texts[key] == value);
    if other != key {
        assert(texts.dom().contains(other) == crate::str_map::texts_or_empty(old).dom().contains(
            other,
        ));
        if texts.dom().contains(other) {
            assert(texts[other] == crate::str_map::texts_or_empty(old)[other]);
        }
    }
}

/// A cleared custom status is acceptable, whatever its text is as JSON.
pub proof fn cleared_statuses_are_accepted(
    new: Option<StringMap>,
    old: Option<StringMap>,
    parsed: Option<bool>,
)
    requires
        crate::user::prop_set(new, old, USER_PROPS_KEY_CUSTOM_STATUS@, ""@),
    ensures
        crate::user::status_accepted(
            crate::user::prop(new, USER_PROPS_KEY_CUSTOM_STATUS@),
            parsed,
        ),
{
    set_props_are_read_back(new, old, USER_PROPS_KEY_CUSTOM_STATUS@, ""@, ""@);
    reveal_strlit("");
}

// ---------------------------------------------------------------------------------------------
// Mention keys
// ---------------------------------------------------------------------------------------------

/// A mention key as it is read: not empty, without white space at its ends and without commas.
pub open spec fn is_key(key: Seq<char>) -> bool {
    key.len() > 0 && crate::text::trim(key) == key && !key.contains(',')
}

proof fn lemma_trimmed_pieces_are_keys(parts: Seq<Seq<char>>)
    requires
        forall|i: int| 0 <= i < parts.len() ==> !(#[trigger] parts[i]).contains(','),
    ensures
        forall|i: int|
            0 <= i < crate::user::trimmed_pieces(parts).len() ==> is_key(
                #[trigger] crate::user::trimmed_pieces(parts)[i],
            ),
    decreases parts.len(),
{
    if parts.len() > 0 {
        lemma_trimmed_pieces_are_keys(parts.drop_last());
        let before = crate::user::trimmed_pieces(parts.drop_last());
        let key = crate::text::trim(parts.last());
        crate::text::trimmed_texts_stay(parts.last());
        assert(!parts[parts.len() - 1].contains(','));
        if key.contains(',') {
            crate::text::trimming_adds_nothing(parts.last(), ',');
        }
        assert forall|i: int| 0 <= i < crate::user::trimmed_pieces(parts).len() implies is_key(
            #[trigger] crate::user::trimmed_pieces(parts)[i],
        ) by {
            if i < before.len() {
                assert(crate::user::trimmed_pieces(parts)[i] == before[i]);
            }
        }
    }
}

proof fn lemma_split_of_stored(keys: Seq<Seq<char>>)
    requires
        keys.len() > 0,
        forall|i: int| 0 <= i < keys.len() ==> is_key(#[trigger] keys[i]),
    ensures
        crate::text::split_on(crate::user::stored_keys(keys), ',') == seq![Seq::<char>::empty()]
            + keys,
    decreases keys.len(),
{
    reveal_strlit(",");
    let empty = Seq::<char>::empty();
    assert(","@ == empty.push(','));
    assert(is_key(keys[keys.len() - 1]));
    if keys.len() == 1 {
        crate::text::split_behind_separator(empty, ',', keys[0]);
        assert(crate::text::split_on(empty, ',') == seq![empty]);
        assert(crate::user::stored_keys(keys) == empty.push(',') + keys[0]);
        assert(seq![empty].push(keys[0]) == seq![empty] + keys);
    } else {
        let front = keys.drop_last();
        assert forall|i: int| 0 <= i < front.len() implies is_key(#[trigger] front[i]) by {
            assert(front[i] == keys[i]);
        }
        lemma_split_of_stored(front);
        crate::text::split_behind_separator(crate::user::stored_keys(front), ',', keys.last());
        assert(crate::user::stored_keys(keys) == crate::user::stored_keys(front).push(',')
            + keys.last());
        assert((seq![empty] + front).push(keys.last()) == seq![empty] + keys);
    }
}

proof fn lemma_trimmed_pieces_keep_keys(keys: Seq<Seq<char>>)
    requires
        forall|i: int| 0 <= i < keys.len() ==> is_key(#[trigger] keys[i]),
    ensures
        crate::user::trimmed_pieces(seq![Seq::<char>::empty()] + keys) == keys,
    decreases keys.len(),
{
    let parts = seq![Seq::<char>::empty()] + keys;
    if keys.len() == 0 {
        assert(parts.drop_last() == Seq::<Seq<char>>::empty());
        assert(parts.last() == Seq::<char>::empty());
        assert(crate::user::trimmed_pieces(parts.drop_last()) == keys);
    } else {
        let front = keys.drop_last();
        assert forall|i: int| 0 <= i < front.len() implies is_key(#[trigger] front[i]) by {
            assert(front[i] == keys[i]);
        }
        assert(is_key(keys[keys.len() - 1]));
        lemma_trimmed_pieces_keep_keys(front);
        assert(parts.drop_last() == seq![Seq::<char>::empty()] + front);
        assert(keys == front.push(keys.last()));
    }
}

proof fn lemma_keys_without(keys: Seq<Seq<char>>, name: Seq<char>)
    requires
        forall|i: int| 0 <= i < keys.len() ==> is_key(#[trigger] keys[i]),
    ensures
        forall|i: int|
            0 <= i < crate::user::keys_without(keys, name).len() ==> is_key(
                #[trigger] crate::user::keys_without(keys, name)[i],
            ),
        !crate::user::keys_without(keys, name).contains(name),
        !crate::user::keys_without(keys, name).contains("@"@ + name),
    decreases keys.len(),
{
    let kept = crate::user::keys_without(keys, name);
    if keys.len() > 0 {
        let front = keys.drop_last();
        assert forall|i: int| 0 <= i < front.len() implies is_key(#[trigger] front[i]) by {
            assert(front[i] == keys[i]);
        }
        assert(is_key(keys[keys.len() - 1]));
        lemma_keys_without(front, name);
        let before = crate::user::keys_without(front, name);
        assert forall|i: int| 0 <= i < kept.len() implies is_key(#[trigger] kept[i]) && kept[i]
            != name && kept[i] != "@"@ + name by {
            if i < before.len() {
                assert(kept[i] == before[i]);
                assert(before.contains(before[i]));
            }
        }
    }
}

/// No mention key is lost: they are the texts between commas, without white space at their ends, all
/// that are not empty and in their order.
pub proof fn all_mention_keys_are_read(parts: Seq<Seq<char>>)
    ensures
        crate::user::trimmed_pieces(parts) == parts.map_values(
            |p: Seq<char>| crate::text::trim(p),
        ).filter(|p: Seq<char>| p.len() > 0),
    decreases parts.len(),
{
    reveal(Seq::filter);
    let trims = |p: Seq<char>| crate::text::trim(p);
    let some = |p: Seq<char>| p.len() > 0;
    if parts.len() > 0 {
        all_mention_keys_are_read(parts.drop_last());
        let all = parts.map_values(trims);
        assert(all.drop_last() =~= parts.drop_last().map_values(trims));
        assert(all.last() == trims(parts.last()));
    } else {
        assert(parts.map_values(trims).filter(some) =~= parts);
    }
}

/// Only the former name goes, bare or behind an at sign, and all other keys stay in their order.
pub proof fn only_former_names_go(keys: Seq<Seq<char>>, name: Seq<char>)
    ensures
        crate::user::keys_without(keys, name) == keys.filter(
            |k: Seq<char>| k != name && k != seq!['@'] + name,
        ),
    decreases keys.len(),
{
    reveal(Seq::filter);
    reveal_strlit("@");
    assert("@"@ =~= seq!['@']);
    if keys.len() > 0 {
        only_former_names_go(keys.drop_last(), name);
    } else {
        assert(keys.filter(|k: Seq<char>| k != name && k != seq!['@'] + name) =~= keys);
    }
}

/// An update writes the mention keys in lower case and leaves none out but the empty ones.
pub proof fn updates_keep_all_mention_keys(parts: Seq<Seq<char>>)
    ensures
        crate::user::lowered_pieces(parts) == parts.filter(
            |p: Seq<char>| p.len() > 0,
        ).map_values(|p: Seq<char>| crate::utils::lower(p)),
    decreases parts.len(),
{
    reveal(Seq::filter);
    let lowers = |p: Seq<char>| crate::utils::lower(p);
    let some = |p: Seq<char>| p.len() > 0;
    if parts.len() > 0 {
        let front = parts.drop_last();
        updates_keep_all_mention_keys(front);
        if some(parts.last()) {
            assert(parts.filter(some) =~= front.filter(some).push(parts.last()));
            assert(front.filter(some).push(parts.last()).map_values(lowers) =~= front.filter(
                some,
            ).map_values(lowers).push(lowers(parts.last())));
        } else {
            assert(parts.filter(some) =~= front.filter(some));
        }
    } else {
        assert(parts.filter(some).map_values(lowers) =~= parts);
    }
}

/// What a new user is told of.
pub proof fn new_users_are_told_of_this()
    ensures
        crate::user::default_notifications() == map![
            "email"@ => "true"@,
            "push"@ => "mention"@,
            "desktop"@ => "mention"@,
            "desktop_sound"@ => "true"@,
            "mention_keys"@ => ""@,
            "channel"@ => "true"@,
            "push_status"@ => "online"@,
            "comments"@ => "never"@,
            "first_name"@ => "false"@,
            "desktop_threads"@ => "all"@,
            "email_threads"@ => "all"@,
            "push_threads"@ => "all"@,
            "channel_mention_auto_follow_threads"@ => "true"@,
        ],
{
}

/// Mention keys are read back as they were stored.
pub proof fn stored_keys_are_read_back(
    new: Option<StringMap>,
    old: Option<StringMap>,
    keys: Seq<Seq<char>>,
)
    requires
        forall|i: int| 0 <= i < keys.len() ==> is_key(#[trigger] keys[i]),
        crate::user::prop_set(
            new,
            old,
            MENTION_KEYS_NOTIFY_PROP@,
            crate::user::stored_keys(keys),
        ),
    ensures
        crate::user::mention_keys(new) == keys,
{
    let key = MENTION_KEYS_NOTIFY_PROP@;
    set_props_are_read_back(new, old, key, crate::user::stored_keys(keys), key);
    lemma_trimmed_pieces_keep_keys(keys);
    if keys.len() > 0 {
        lemma_split_of_stored(keys);
    } else {
        assert(seq![Seq::<char>::empty()] + keys == seq![Seq::<char>::empty()]);
    }
}

/// After a change of name the former name is no mention key any more, neither bare nor behind an at
/// sign, and the other keys are read back in their order.
pub proof fn former_names_leave_the_keys(
    new: Option<StringMap>,
    old: Option<StringMap>,
    name: Seq<char>,
)
    requires
        crate::user::prop_set(
            new,
            old,
            MENTION_KEYS_NOTIFY_PROP@,
            crate::user::stored_keys(
                crate::user::keys_without(crate::user::mention_keys(old), name),
            ),
        ),
    ensures
        crate::user::mention_keys(new) == crate::user::keys_without(
            crate::user::mention_keys(old),
            name,
        ),
        !crate::user::mention_keys(new).contains(name),
        !crate::user::mention_keys(new).contains("@"@ + name),
{
    let raw = match crate::user::prop(old, MENTION_KEYS_NOTIFY_PROP@) {
        Some(raw) => raw,
        None => Seq::empty(),
    };
    let pieces = crate::text::split_on(raw, ',');
    assert forall|i: int| 0 <= i < pieces.len() implies !(#[trigger] pieces[i]).contains(',') by {
        crate::text::pieces_hold_no_separator(raw, ',', i);
    }
    lemma_trimmed_pieces_are_keys(pieces);
    let keys = crate::user::mention_keys(old);
    lemma_keys_without(keys, name);
    stored_keys_are_read_back(new, old, crate::user::keys_without(keys, name));
}

/// A user with the notifications of a new user has no mention keys.
pub proof fn new_users_have_no_mention_keys(notify_props: Option<StringMap>)
    requires
        crate::str_map::opt_texts(notify_props) == Some(crate::user::default_notifications()),
    ensures
        crate::user::mention_keys(notify_props).len() == 0,
{
    let texts = crate::user::default_notifications();
    let key = MENTION_KEYS_NOTIFY_PROP@;
    reveal_strlit("");
    reveal_strlit("mention_keys");
    reveal_strlit("channel");
    reveal_strlit("push_status");
    reveal_strlit("comments");
    reveal_strlit("first_name");
    reveal_strlit("desktop_threads");
    reveal_strlit("email_threads");
    reveal_strlit("push_threads");
    reveal_strlit("channel_mention_auto_follow_threads");
    assert(key.len() == 12);
    assert(crate::user::PUSH_THREADS_NOTIFY_PROP@.len() == 12);
    assert(key[0] == 'm');
    assert(crate::user::PUSH_THREADS_NOTIFY_PROP@[0] == 'p');
    assert(texts.dom().contains(key));
    assert(texts[key] == ""@);
    assert(notify_props->0@.dom().contains(key));
    assert(crate::str_map::texts(notify_props->0@)[key] == ""@);
    lemma_trimmed_pieces_keep_keys(Seq::empty());
    assert(crate::text::split_on(""@, ',') == seq![Seq::<char>::empty()] + Seq::<Seq<char>>::empty());
}

// ---------------------------------------------------------------------------------------------
// Patches
// ---------------------------------------------------------------------------------------------

/// A patch without anything in it changes nothing.
pub proof fn empty_patches_change_nothing(new: User, patch: UserPatch, old: User)
    requires
        patch == (UserPatch {
            username: None,
            password: patch.password,
            nickname: None,
            first_name: None,
            last_name: None,
            position: None,
            email: None,
            props: None,
            notify_props: None,
            locale: None,
            timezone: None,
            remote_id: None,
        }),
        crate::user::is_patched(new, patch, old),
    ensures
        new == old,
{
}

/// A patch that was applied is applied: doing it again gives a user that doing it once may give.
pub proof fn patching_is_idempotent(once: User, twice: User, patch: UserPatch, old: User)
    requires
        crate::user::is_patched(once, patch, old),
        crate::user::is_patched(twice, patch, once),
    ensures
        crate::user::is_patched(twice, patch, old),
        twice == (User {
            props: twice.props,
            notify_props: twice.notify_props,
            timezone: twice.timezone,
            ..once
        }),
        crate::str_map::opt_list(twice.props) == crate::str_map::opt_list(once.props),
        crate::str_map::opt_list(twice.notify_props) == crate::str_map::opt_list(once.notify_props),
        crate::str_map::opt_list(twice.timezone) == crate::str_map::opt_list(once.timezone),
{
}

/// The patch of a user applied to that user changes nothing.
pub proof fn own_patches_change_nothing(new: User, patch: UserPatch, old: User)
    requires
        crate::user::is_patch_of(patch, old),
        crate::user::is_patched(new, patch, old),
    ensures
        new == (User {
            props: new.props,
            notify_props: new.notify_props,
            timezone: new.timezone,
            ..old
        }),
        crate::str_map::opt_list(new.props) == crate::str_map::opt_list(old.props),
        crate::str_map::opt_list(new.notify_props) == crate::str_map::opt_list(old.notify_props),
        crate::str_map::opt_list(new.timezone) == crate::str_map::opt_list(old.timezone),
{
}

/// The patch of one user makes another like them in all that the patch holds.
pub proof fn patches_carry_users_over(new: User, patch: UserPatch, model: User, old: User)
    requires
        crate::user::is_patch_of(patch, model),
        crate::user::is_patched(new, patch, old),
    ensures
        new.username == model.username,
        new.nickname == model.nickname,
        new.first_name == model.first_name,
        new.last_name == model.last_name,
        new.position == model.position,
        new.email == model.email,
        new.locale == model.locale,
        new.password == old.password,
        new.remote_id == old.remote_id,
        model.props is Some ==> crate::str_map::opt_list(new.props) == crate::str_map::opt_list(
            model.props,
        ),
        model.notify_props is Some ==> crate::str_map::opt_list(new.notify_props)
            == crate::str_map::opt_list(model.notify_props),
        model.timezone is Some ==> crate::str_map::opt_list(new.timezone)
            == crate::str_map::opt_list(model.timezone),
{
}

// ---------------------------------------------------------------------------------------------
// What others see
// ---------------------------------------------------------------------------------------------

/// Sanitizing twice is sanitizing once.
pub proof fn sanitizing_is_idempotent(
    once: User,
    twice: User,
    old: User,
    options: Map<Seq<char>, bool>,
)
    requires
        crate::user::sanitized(once, old, options),
        crate::user::sanitized(twice, once, options),
    ensures
        crate::user::sanitized(twice, old, options),
{
    if old.props is Some {
        let all = old.props->0@;
        let key = USER_PROPS_KEY_REMOTE_EMAIL@;
        assert(all.remove(key).remove(key) == all.remove(key));
    }
}

/// Whatever the options and whoever asks, a profile holds no secret: no password, no second factor
/// and no time of the last login, and no time at which the password was changed.
pub proof fn profiles_hold_no_secrets(
    new: User,
    mid: User,
    old: User,
    options: Map<Seq<char>, bool>,
    as_admin: bool,
)
    requires
        crate::user::non_profile_cleared(mid, old, as_admin),
        crate::user::sanitized(new, mid, options),
    ensures
        new.password@.len() == 0,
        new.mfa_secret@.len() == 0,
        new.mfa_used_timestamps is None,
        new.last_login == 0,
        new.last_password_update == 0,
        !as_admin ==> crate::user::withheld(new.auth_data),
{
}

/// What is flagged is kept, and what is not is removed; where no flags are given at all, only the
/// secrets go. Nothing else changes. The name of a user is both of its parts.
pub proof fn what_is_flagged_is_kept(new: User, old: User, options: Map<Seq<char>, bool>)
    requires
        crate::user::sanitized(new, old, options),
    ensures
        ({
            let shown = |key: Seq<char>|
                options.dom().contains(key) && options[key] || options.dom() == Set::<Seq<char>>::empty();
            &&& if shown("email"@) {
                new.email == old.email && new.props == old.props
            } else {
                new.email@.len() == 0 && (old.props is Some ==> new.props is Some && new.props->0@
                    == old.props->0@.remove("RemoteEmail"@))
            }
            &&& if shown("fullname"@) {
                new.first_name == old.first_name && new.last_name == old.last_name
            } else {
                new.first_name@.len() == 0 && new.last_name@.len() == 0
            }
            &&& if shown("passwordupdate"@) {
                new.last_password_update == old.last_password_update
            } else {
                new.last_password_update == 0
            }
            &&& if shown("authservice"@) {
                new.auth_service == old.auth_service
            } else {
                new.auth_service@.len() == 0
            }
            &&& if shown("authdata"@) {
                new.auth_data == old.auth_data
            } else {
                new.auth_data is Some && new.auth_data->0@.len() == 0
            }
            &&& new.password@.len() == 0 && new.mfa_secret@.len() == 0
            &&& new.mfa_used_timestamps is None && new.last_login == 0
            &&& old.props is None ==> new.props is None
            &&& new == (User {
                password: new.password,
                mfa_secret: new.mfa_secret,
                mfa_used_timestamps: new.mfa_used_timestamps,
                last_login: new.last_login,
                email: new.email,
                props: new.props,
                first_name: new.first_name,
                last_name: new.last_name,
                last_password_update: new.last_password_update,
                auth_service: new.auth_service,
                auth_data: new.auth_data,
                ..old
            })
        }),
{
    assert((options == Map::<Seq<char>, bool>::empty()) == (options.dom() == Set::<
        Seq<char>,
    >::empty())) by {
        if options.dom() == Set::<Seq<char>>::empty() {
            assert(options =~= Map::<Seq<char>, bool>::empty());
        }
    }
}

/// Making a profile removes the secrets and what is private to the account and changes nothing else;
/// an administrator keeps how the user signs in, how they are notified and how often signing in
/// failed.
pub proof fn profiles_keep_the_rest(new: User, old: User, as_admin: bool)
    requires
        crate::user::non_profile_cleared(new, old, as_admin),
    ensures
        new.password@.len() == 0,
        new.mfa_secret@.len() == 0,
        new.mfa_used_timestamps is None,
        !new.email_verified,
        !new.allow_marketing,
        new.last_password_update == 0,
        as_admin ==> new.auth_data == old.auth_data && new.notify_props == old.notify_props
            && new.failed_attempts == old.failed_attempts,
        !as_admin ==> new.auth_data is Some && new.auth_data->0@.len() == 0 && new.notify_props is Some
            && new.notify_props->0@.dom() == Set::<Seq<char>>::empty() && new.failed_attempts == 0,
        new == (User {
            password: new.password,
            mfa_secret: new.mfa_secret,
            mfa_used_timestamps: new.mfa_used_timestamps,
            email_verified: new.email_verified,
            allow_marketing: new.allow_marketing,
            last_password_update: new.last_password_update,
            auth_data: new.auth_data,
            notify_props: new.notify_props,
            failed_attempts: new.failed_attempts,
            ..old
        }),
{
}

/// A client sets no times, no second factor and no server of origin; only an administrator sets how
/// the user signs in and that the mail address is verified. All else is taken as it was sent, the
/// mail address without white space at its ends.
pub proof fn clients_set_only_their_own(new: User, old: User, is_admin: bool)
    requires
        crate::user::input_sanitized(new, old, is_admin),
    ensures
        new.create_at == 0 && new.update_at == 0 && new.delete_at == 0,
        new.last_password_update == 0 && new.last_picture_update == 0 && new.last_activity_at == 0,
        new.failed_attempts == 0,
        !new.mfa_active && new.mfa_secret@.len() == 0,
        new.mfa_used_timestamps is Some && new.mfa_used_timestamps->0@.len() == 0,
        new.remote_id is Some && new.remote_id->0@.len() == 0,
        is_admin ==> new.auth_data == old.auth_data && new.auth_service == old.auth_service
            && new.email_verified == old.email_verified,
        !is_admin ==> new.auth_data is Some && new.auth_data->0@.len() == 0
            && new.auth_service@.len() == 0 && !new.email_verified,
        new.email@ == crate::text::trim(old.email@),
        new == (User {
            auth_data: new.auth_data,
            auth_service: new.auth_service,
            email_verified: new.email_verified,
            remote_id: new.remote_id,
            create_at: new.create_at,
            update_at: new.update_at,
            delete_at: new.delete_at,
            last_password_update: new.last_password_update,
            last_picture_update: new.last_picture_update,
            failed_attempts: new.failed_attempts,
            mfa_active: new.mfa_active,
            mfa_secret: new.mfa_secret,
            mfa_used_timestamps: new.mfa_used_timestamps,
            email: new.email,
            last_activity_at: new.last_activity_at,
            ..old
        }),
{
}

/// A patch changes the fields that it holds, to what it holds, and no others; the password is not
/// patched.
pub proof fn patches_change_what_they_hold(new: User, patch: UserPatch, old: User)
    requires
        crate::user::is_patched(new, patch, old),
    ensures
        new.username == (if patch.username is Some {
            patch.username->0
        } else {
            old.username
        }),
        new.nickname == (if patch.nickname is Some {
            patch.nickname->0
        } else {
            old.nickname
        }),
        new.first_name == (if patch.first_name is Some {
            patch.first_name->0
        } else {
            old.first_name
        }),
        new.last_name == (if patch.last_name is Some {
            patch.last_name->0
        } else {
            old.last_name
        }),
        new.position == (if patch.position is Some {
            patch.position->0
        } else {
            old.position
        }),
        new.email == (if patch.email is Some {
            patch.email->0
        } else {
            old.email
        }),
        new.locale == (if patch.locale is Some {
            patch.locale->0
        } else {
            old.locale
        }),
        new.remote_id == (if patch.remote_id is Some {
            patch.remote_id
        } else {
            old.remote_id
        }),
        patch.props is None ==> new.props == old.props,
        patch.notify_props is None ==> new.notify_props == old.notify_props,
        patch.timezone is None ==> new.timezone == old.timezone,
        patch.props is Some ==> crate::str_map::opt_list(new.props) == crate::str_map::opt_list(
            patch.props,
        ),
        patch.notify_props is Some ==> crate::str_map::opt_list(new.notify_props)
            == crate::str_map::opt_list(patch.notify_props),
        patch.timezone is Some ==> crate::str_map::opt_list(new.timezone) == crate::str_map::opt_list(
            patch.timezone,
        ),
        new == (User {
            username: new.username,
            nickname: new.nickname,
            first_name: new.first_name,
            last_name: new.last_name,
            position: new.position,
            email: new.email,
            locale: new.locale,
            remote_id: new.remote_id,
            props: new.props,
            notify_props: new.notify_props,
            timezone: new.timezone,
            ..old
        }),
{
}

/// A field of a patch is set by its name, and no other with it.
pub proof fn fields_are_set_by_their_names(
    new: UserPatch,
    old: UserPatch,
    name: Seq<char>,
    value: Seq<char>,
)
    requires
        crate::user::field_set(new, old, name, value),
    ensures
        ({
            let set = |field: Option<String>| field is Some && field->0@ == value;
            &&& name == "FirstName"@ ==> set(new.first_name)
            &&& name == "LastName"@ ==> set(new.last_name)
            &&& name == "Nickname"@ ==> set(new.nickname)
            &&& name == "Email"@ ==> set(new.email)
            &&& name == "Position"@ ==> set(new.position)
            &&& name == "Username"@ ==> set(new.username)
            &&& name != "FirstName"@ ==> new.first_name == old.first_name
            &&& name != "LastName"@ ==> new.last_name == old.last_name
            &&& name != "Nickname"@ ==> new.nickname == old.nickname
            &&& name != "Email"@ ==> new.email == old.email
            &&& name != "Position"@ ==> new.position == old.position
            &&& name != "Username"@ ==> new.username == old.username
            &&& new.password == old.password && new.props == old.props && new.notify_props
                == old.notify_props && new.locale == old.locale && new.timezone == old.timezone
                && new.remote_id == old.remote_id
        }),
{
    reveal_strlit("FirstName");
    reveal_strlit("LastName");
    reveal_strlit("Nickname");
    reveal_strlit("Email");
    reveal_strlit("Position");
    reveal_strlit("Username");
    assert("LastName"@[0] == 'L' && "Nickname"@[0] == 'N' && "Position"@[0] == 'P' && "Username"@[0]
        == 'U');
    assert("FirstName"@.len() == 9 && "Email"@.len() == 5 && "LastName"@.len() == 8);
}

/// A sanitized user stays who they are: what names and describes the account for everybody is kept.
pub proof fn sanitized_users_keep_their_identity(
    new: User,
    old: User,
    options: Map<Seq<char>, bool>,
)
    requires
        crate::user::sanitized(new, old, options),
    ensures
        new.id == old.id,
        new.username == old.username,
        new.nickname == old.nickname,
        new.position == old.position,
        new.roles == old.roles,
        new.create_at == old.create_at,
        new.delete_at == old.delete_at,
{
}

// ---------------------------------------------------------------------------------------------
// Names
// ---------------------------------------------------------------------------------------------

/// The full name holds all of both names: the first one at its start, the last one at its end, and a
/// blank between them and nothing else.
pub proof fn full_names_hold_both_names(user: User)
    ensures
        ({
            let first = user.first_name@;
            let last = user.last_name@;
            let full = user.full_name();
            let blank: int = if first.len() > 0 && last.len() > 0 {
                1
            } else {
                0
            };
            &&& full.len() == first.len() + last.len() + blank
            &&& full.take(first.len() as int) == first
            &&& full.skip(full.len() - last.len()) == last
            &&& blank == 1 ==> full[first.len() as int] == ' '
        }),
{
    reveal_strlit(" ");
    let first = user.first_name@;
    let last = user.last_name@;
    let full = user.full_name();
    assert(full.take(first.len() as int) =~= first);
    assert(full.skip(full.len() - last.len()) =~= last);
}

/// The name that is displayed: the nickname if it is asked for and there is one, else the full name
/// if either is asked for and there is one, else the name of last resort.
pub proof fn displayed_names_are_as_asked(user: User, base: Seq<char>)
    ensures
        user.nickname@.len() > 0 ==> user.display_name(base, "nickname_full_name"@) == user.nickname@,
        user.nickname@.len() == 0 && user.full_name().len() > 0 ==> user.display_name(
            base,
            "nickname_full_name"@,
        ) == user.full_name(),
        user.full_name().len() > 0 ==> user.display_name(base, "full_name"@) == user.full_name(),
        user.full_name().len() == 0 ==> user.display_name(base, "full_name"@) == base,
        user.full_name().len() == 0 && user.nickname@.len() == 0 ==> user.display_name(
            base,
            "nickname_full_name"@,
        ) == base,
        forall|format: Seq<char>|
            format != "nickname_full_name"@ && format != "full_name"@ ==> #[trigger] user.display_name(
                base,
                format,
            ) == base,
{
    reveal_strlit("nickname_full_name");
    reveal_strlit("full_name");
    assert("nickname_full_name"@.len() != "full_name"@.len());
}

// ---------------------------------------------------------------------------------------------
// Validation
// ---------------------------------------------------------------------------------------------

proof fn ascii_texts_have_as_many_bytes(s: Seq<char>)
    requires
        forall|i: int| 0 <= i < s.len() ==> '\0' <= #[trigger] s[i] <= '\u{7f}',
    ensures
        crate::text::utf8_len(s) == s.len(),
{
    assert(vstd::utf8::is_ascii_chars(s));
    vstd::utf8::is_ascii_chars_encode_utf8(s);
}

/// A name of a local user is one to sixty-four lower-case letters, digits, dots, hyphens and
/// underscores, and none of four words.
pub proof fn user_names_are_short_and_plain(s: Seq<char>)
    ensures
        crate::user::valid_username(s) == (1 <= s.len() <= 64 && s != "all"@ && s != "channel"@ && s
            != "matterbot"@ && s != "system"@ && forall|i: int|
            0 <= i < s.len() ==> 'a' <= #[trigger] s[i] <= 'z' || '0' <= s[i] <= '9' || s[i] == '.'
                || s[i] == '-' || s[i] == '_'),
{
    if forall|i: int|
        0 <= i < s.len() ==> 'a' <= #[trigger] s[i] <= 'z' || '0' <= s[i] <= '9' || s[i] == '.'
            || s[i] == '-' || s[i] == '_' {
        ascii_texts_have_as_many_bytes(s);
    }
}

/// A name of a remote user may hold colons too.
pub proof fn remote_names_may_hold_colons(s: Seq<char>)
    ensures
        crate::user::valid_remote_username(s) == (1 <= s.len() <= 64 && s != "all"@ && s != "channel"@
            && s != "matterbot"@ && s != "system"@ && forall|i: int|
            0 <= i < s.len() ==> 'a' <= #[trigger] s[i] <= 'z' || '0' <= s[i] <= '9' || s[i] == '.'
                || s[i] == '-' || s[i] == '_' || s[i] == ':'),
{
    if forall|i: int|
        0 <= i < s.len() ==> 'a' <= #[trigger] s[i] <= 'z' || '0' <= s[i] <= '9' || s[i] == '.'
            || s[i] == '-' || s[i] == '_' || s[i] == ':' {
        ascii_texts_have_as_many_bytes(s);
    }
}

/// A user is valid if and only if all of these hold.
pub proof fn valid_users(user: User, status_ok: bool)
    ensures
        (user.fault(status_ok) is None) == ({
            let remote = user.remote_id is Some && user.remote_id->0@.len() > 0;
            let data = match user.auth_data {
                Some(d) => d@,
                None => Seq::<char>::empty(),
            };
            &&& crate::utils::valid_id(user.id@)
            &&& user.create_at != 0
            &&& user.update_at != 0
            &&& remote ==> crate::user::valid_remote_username(user.username@)
            &&& !remote ==> crate::user::valid_username(user.username@)
            &&& user.email@.len() > 0
            &&& crate::text::utf8_len(user.email@) <= 128
            &&& remote || crate::utils::valid_email(user.email@)
            &&& user.nickname@.len() <= 64
            &&& user.position@.len() <= 128
            &&& user.first_name@.len() <= 64
            &&& user.last_name@.len() <= 64
            &&& crate::text::utf8_len(data) <= 128
            &&& data.len() > 0 ==> user.auth_service@.len() > 0 && user.password@.len() == 0
            &&& crate::user::locale::valid_locale(user.locale@)
            &&& user.timezone is Some && user.timezone->0@ != Map::<Seq<char>, String>::empty()
                ==> crate::value::wire(crate::user::timezone_json(user.timezone)).len() <= 256
            &&& crate::text::utf8_len(user.roles@) <= 256
            &&& user.props is Some ==> status_ok
        }),
{
}

/// The first thing that is wrong is what is reported, with the value that is wrong.
pub proof fn the_first_fault_of_a_user_is_reported(user: User, status_ok: bool)
    ensures
        ({
            let remote = user.remote_id is Some && user.remote_id->0@.len() > 0;
            let id = user.id@;
            let fault = user.fault(status_ok);
            let named = if remote {
                crate::user::valid_remote_username(user.username@)
            } else {
                crate::user::valid_username(user.username@)
            };
            let dated = crate::utils::valid_id(id) && user.create_at != 0 && user.update_at != 0;
            let mailed = user.email@.len() > 0 && crate::text::utf8_len(user.email@) <= 128 && (
            remote || crate::utils::valid_email(user.email@));
            &&& !crate::utils::valid_id(id) ==> fault == Some(crate::user::user_fault("id"@, ""@, id))
            &&& crate::utils::valid_id(id) && user.create_at == 0 ==> fault == Some(
                crate::user::user_fault("create_at"@, id, "0"@),
            )
            &&& crate::utils::valid_id(id) && user.create_at != 0 && user.update_at == 0 ==> fault
                == Some(crate::user::user_fault("update_at"@, id, "0"@))
            &&& dated && !named ==> fault == Some(
                crate::user::user_fault("username"@, id, user.username@),
            )
            &&& dated && named && !mailed ==> fault == Some(
                crate::user::user_fault("email"@, id, user.email@),
            )
            &&& dated && named && mailed && user.nickname@.len() > 64 ==> fault == Some(
                crate::user::user_fault("nickname"@, id, user.nickname@),
            )
            &&& dated && named && mailed && user.nickname@.len() <= 64 && user.position@.len() > 128
                ==> fault == Some(crate::user::user_fault("position"@, id, user.position@))
            &&& dated && named && mailed && user.nickname@.len() <= 64 && user.position@.len() <= 128
                && user.first_name@.len() > 64 ==> fault == Some(
                crate::user::user_fault("first_name"@, id, user.first_name@),
            )
            &&& dated && named && mailed && user.nickname@.len() <= 64 && user.position@.len() <= 128
                && user.first_name@.len() <= 64 && user.last_name@.len() > 64 ==> fault == Some(
                crate::user::user_fault("last_name"@, id, user.last_name@),
            )
        }),
{
    reveal_strlit("");
    reveal_strlit("0");
    assert(""@ =~= Seq::<char>::empty());
    assert(crate::text::decimal(0) =~= "0"@);
}

/// An error of a user names the field twice, and the user unless they have no id.
pub proof fn faults_name_the_field_and_the_user(
    field: Seq<char>,
    user_id: Seq<char>,
    value: Seq<char>,
)
    ensures
        ({
            let fault = crate::user::user_fault(field, user_id, value);
            &&& fault.id == "model.user.is_valid."@ + field + ".app_error"@
            &&& fault.where_ == "User.IsValid"@ && fault.message == fault.id && fault.wrapped is None
            &&& fault.status == 400
            &&& fault.params is None
            &&& fault.details == (if user_id.len() > 0 {
                "user_id="@ + user_id
            } else {
                Seq::<char>::empty()
            }) + " "@ + field + "="@ + value
        }),
{
    assert(user_id.len() == 0 ==> Seq::<char>::empty() + " "@ =~= " "@);
}

// ---------------------------------------------------------------------------------------------
// Saving
// ---------------------------------------------------------------------------------------------

/// A new user that was made ready: what was given is kept, but for the clean-up of names and mail
/// address; what was not gets its default; one time stands for creation, update and password.
pub proof fn saved_users_are_complete(new: User, old: User, now: int)
    requires
        new.is_saved(old, now),
    ensures
        new.create_at == (if old.create_at == 0 {
            now
        } else {
            old.create_at as int
        }),
        new.update_at == new.create_at,
        new.last_password_update == new.create_at,
        !new.mfa_active,
        old.locale@.len() > 0 ==> new.locale == old.locale,
        old.locale@.len() == 0 ==> new.locale@ == "en"@,
        old.id@.len() > 0 ==> new.id == old.id,
        old.username@.len() > 0 ==> new.username@ == crate::utils::lower(
            crate::utils::wanted(old.username@),
        ),
        new.first_name@ == crate::utils::wanted(old.first_name@),
        new.last_name@ == crate::utils::wanted(old.last_name@),
        new.nickname@ == crate::utils::wanted(old.nickname@),
        new.email@ == crate::utils::lower(old.email@),
        old.props is Some ==> new.props == old.props,
        new.props is Some && new.notify_props is Some,
        old.notify_props is Some && old.notify_props->0@ != Map::<Seq<char>, String>::empty()
            ==> new.notify_props == old.notify_props,
        old.auth_data is Some && old.auth_data->0@.len() > 0 ==> new.auth_data == old.auth_data,
        !(old.auth_data is Some && old.auth_data->0@.len() > 0) ==> new.auth_data is None,
        new == (User {
            id: new.id,
            username: new.username,
            auth_data: new.auth_data,
            first_name: new.first_name,
            last_name: new.last_name,
            nickname: new.nickname,
            email: new.email,
            create_at: new.create_at,
            update_at: new.update_at,
            last_password_update: new.last_password_update,
            mfa_active: new.mfa_active,
            locale: new.locale,
            props: new.props,
            notify_props: new.notify_props,
            ..old
        }),
{
}

/// A changed user that was made ready: the time of the change is noted, names and mail address are
/// cleaned up, notifications are put in order, and nothing else changes.
pub proof fn updated_users_keep_the_rest(new: User, old: User, now: int)
    requires
        new.is_updated(old, now),
    ensures
        new.update_at == now,
        new.username@ == crate::utils::lower(crate::utils::wanted(old.username@)),
        new.first_name@ == crate::utils::wanted(old.first_name@),
        new.last_name@ == crate::utils::wanted(old.last_name@),
        new.nickname@ == crate::utils::wanted(old.nickname@),
        new.bot_description@ == crate::utils::wanted(old.bot_description@),
        new.email@ == crate::utils::lower(old.email@),
        old.auth_data is Some && old.auth_data->0@.len() > 0 ==> new.auth_data == old.auth_data,
        !(old.auth_data is Some && old.auth_data->0@.len() > 0) ==> new.auth_data is None,
        new == (User {
            username: new.username,
            first_name: new.first_name,
            last_name: new.last_name,
            nickname: new.nickname,
            bot_description: new.bot_description,
            email: new.email,
            update_at: new.update_at,
            auth_data: new.auth_data,
            notify_props: new.notify_props,
            ..old
        }),
{
}

/// An update changes no notification setting but the mention keys, and sets those of a new user
/// where there were none.
pub proof fn updates_keep_notifications(old: Option<StringMap>, key: Seq<char>)
    ensures
        ({
            let new = crate::user::updated_notifications(old);
            let had = old is Some && old->0@ != Map::<Seq<char>, String>::empty();
            &&& new is Some
            &&& !had ==> new->0 == crate::user::default_notifications()
            &&& had && key != "mention_keys"@ ==> new->0.dom().contains(key) == old->0@.dom().contains(
                key,
            ) && (new->0.dom().contains(key) ==> new->0[key] == old->0@[key]@)
            &&& had ==> new->0.dom().contains("mention_keys"@) == old->0@.dom().contains(
                "mention_keys"@,
            )
        }),
{
}

/// A new user without an id and a name gets an id and a name that pass validation.
pub proof fn saved_users_have_valid_names(new: User, old: User, now: int)
    requires
        new.is_saved(old, now),
        old.id@.len() == 0,
        old.username@.len() == 0,
    ensures
        crate::utils::valid_id(new.id@),
        crate::user::valid_username(new.username@),
        crate::user::valid_remote_username(new.username@),
{
    let u = new.username@;
    let n = crate::utils::ID_LENGTH as nat;
    crate::utils::random_texts_are_ascii(u.skip(1), n);
    reveal_strlit("all");
    reveal_strlit("channel");
    reveal_strlit("matterbot");
    reveal_strlit("system");
    assert forall|i: int| 0 <= i < u.len() implies crate::pattern::username_char(#[trigger] u[i]) by {
        if i > 0 {
            assert(u.skip(1)[i - 1] == u[i]);
        }
    }
}

/// A user authenticates by mail or through one of six services, four of which speak OAuth.
pub proof fn seven_services_authenticate(s: Seq<char>)
    ensures
        crate::user::oauth_service(s) == (s == "gitlab"@ || s == "google"@ || s == "office365"@ || s
            == "openid"@),
        crate::user::valid_auth_service(s) == (s == "email"@ || s == "ldap"@ || s == "saml"@ || s
            == "gitlab"@ || s == "google"@ || s == "office365"@ || s == "openid"@),
{
}

/// One role more behind a blank is found, and no other is found or lost by it.
pub proof fn roles_are_found_between_blanks(roles: Seq<char>, last: Seq<char>, role: Seq<char>)
    requires
        !last.contains(' '),
    ensures
        crate::user::in_roles(roles.push(' ') + last, role) == (crate::user::in_roles(roles, role)
            || role == last),
        crate::user::in_roles(last, role) == (role == last),
        role.contains(' ') ==> !crate::user::in_roles(roles, role),
{
    crate::text::split_behind_separator(roles, ' ', last);
    let before = crate::text::split_on(roles, ' ');
    let after = crate::text::split_on(roles.push(' ') + last, ' ');
    assert(after == before.push(last));
    if after.contains(role) {
        let i = choose|i: int| 0 <= i < after.len() && after[i] == role;
        if i < before.len() {
            assert(before[i] == role);
        }
    }
    if before.contains(role) {
        let i = choose|i: int| 0 <= i < before.len() && before[i] == role;
        assert(after[i] == role);
    }
    assert(after[before.len() as int] == last);
    one_piece(last);
    let one = crate::text::split_on(last, ' ');
    assert(one[0] == last);
    if before.contains(role) && role.contains(' ') {
        let i = choose|i: int| 0 <= i < before.len() && before[i] == role;
        crate::text::pieces_hold_no_separator(roles, ' ', i);
    }
}

proof fn one_piece(s: Seq<char>)
    requires
        !s.contains(' '),
    ensures
        crate::text::split_on(s, ' ') == seq![s],
    decreases s.len(),
{
    if s.len() > 0 {
        let rest = s.drop_last();
        assert(s.contains(s[s.len() - 1]));
        if rest.contains(' ') {
            let i = choose|i: int| 0 <= i < rest.len() && rest[i] == ' ';
            assert(s[i] == ' ');
        }
        one_piece(rest);
        let before = crate::text::split_on(rest, ' ');
        assert(before.last().push(s.last()) =~= s);
        assert(before.drop_last().push(s) =~= seq![s]);
    } else {
        assert(s =~= Seq::<char>::empty());
    }
}

/// A custom status may be missing or empty; another one has to be a JSON document that is not
/// `null`.
pub proof fn statuses_are_documents(text: Seq<char>, parsed: Option<bool>)
    ensures
        crate::user::status_accepted(None, parsed),
        text.len() == 0 ==> crate::user::status_accepted(Some(text), parsed),
        text.len() > 0 ==> !crate::user::status_accepted(Some(text), None),
        text.len() > 0 ==> !crate::user::status_accepted(Some(text), Some(true)),
        crate::user::status_accepted(Some(text), Some(false)),
{
}

} // verus!
