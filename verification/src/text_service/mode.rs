//! The input mode: kana, direct, and kana for a while. The mode is a value that the host shares
//! with others; once this service has set it, what it set counts, even where the host sets it back.

use vstd::prelude::*;

verus! {

/// Kana are typed.
pub const CONVMODE_NATIVE: u32 = 1;

/// Wide letters are typed.
pub const CONVMODE_FULLSHAPE: u32 = 8;

/// A second change of the mode within this time is a key that is held down, in milliseconds.
pub const MODE_TOGGLE_REPEAT_GUARD: u64 = 300;

/// Characters go to the document as they are typed.
pub open spec fn types_directly(mode: u32) -> bool {
    mode & CONVMODE_NATIVE == 0
}

/// The mode without kana and without wide letters; everything else stays.
pub open spec fn made_direct(mode: u32) -> u32 {
    mode & !(CONVMODE_NATIVE | CONVMODE_FULLSHAPE)
}

/// The mode with kana; everything else stays.
pub open spec fn made_native(mode: u32) -> u32 {
    mode | CONVMODE_NATIVE
}

/// The mode with kana switched over.
pub open spec fn switched(mode: u32) -> u32 {
    mode ^ CONVMODE_NATIVE
}

/// Whether characters go to the document as they are typed.
pub fn is_direct(mode: u32) -> (r: bool)
    ensures
        r == types_directly(mode),
{
    mode & CONVMODE_NATIVE == 0
}

/// The mode for direct typing.
pub fn to_direct(mode: u32) -> (r: u32)
    ensures
        r == made_direct(mode),
{
    mode & !(CONVMODE_NATIVE | CONVMODE_FULLSHAPE)
}

/// The mode with kana switched over.
pub fn toggled(mode: u32) -> (r: u32)
    ensures
        r == switched(mode),
{
    mode ^ CONVMODE_NATIVE
}

/// The mode that counts: what this service set, where it set something.
pub fn effective_is_direct(owned: bool, shown_direct: bool, live_direct: bool) -> (r: bool)
    ensures
        r == (if owned {
            shown_direct
        } else {
            live_direct
        }),
{
    if owned {
        shown_direct
    } else {
        live_direct
    }
}

/// The live mode, with kana on or off as this service set it.
pub open spec fn mode_as_set(owned: bool, shown_direct: bool, live: u32) -> u32 {
    if !owned {
        live
    } else if shown_direct {
        live & !CONVMODE_NATIVE
    } else {
        made_native(live)
    }
}

/// The mode that a change starts from.
pub fn toggle_before_mode(owned: bool, shown_direct: bool, live: u32) -> (r: u32)
    ensures
        r == mode_as_set(owned, shown_direct, live),
{
    if !owned {
        live
    } else if shown_direct {
        live & !CONVMODE_NATIVE
    } else {
        live | CONVMODE_NATIVE
    }
}

/// A change switches between kana and direct typing; going direct ends wide letters; nothing else
/// of the mode changes. A change starts from the mode that counts.
pub proof fn a_change_switches_the_mode(owned: bool, shown_direct: bool, live: u32)
    ensures
        types_directly(switched(live)) == !types_directly(live),
        types_directly(made_direct(live)),
        !types_directly(made_native(live)),
        made_direct(live) & CONVMODE_FULLSHAPE == 0,
        switched(live) & !CONVMODE_NATIVE == live & !CONVMODE_NATIVE,
        types_directly(mode_as_set(owned, shown_direct, live)) == (if owned {
            shown_direct
        } else {
            types_directly(live)
        }),
        types_directly(switched(mode_as_set(owned, shown_direct, live))) == !(if owned {
            shown_direct
        } else {
            types_directly(live)
        }),
{
    assert((live ^ 1) & 1 == 0 <==> live & 1 != 0) by (bit_vector);
    assert((live & !(1u32 | 8)) & 1 == 0 && (live & !(1u32 | 8)) & 8 == 0) by (bit_vector);
    assert((live | 1) & 1 != 0 && ((live | 1) ^ 1) & 1 == 0) by (bit_vector);
    assert((live ^ 1) & !1u32 == live & !1u32) by (bit_vector);
    assert((live & !1u32) & 1 == 0 && ((live & !1u32) ^ 1) & 1 != 0) by (bit_vector);
}

/// Whether a change is a key that is held down.
pub fn is_toggle_repeat(elapsed: Option<u64>, threshold: u64) -> (r: bool)
    ensures
        r == (elapsed is Some && elapsed->0 < threshold),
{
    match elapsed {
        Some(elapsed) => elapsed < threshold,
        None => false,
    }
}

/// Whether the first activation could make the mode direct.
pub fn default_direct_success(has_compartment: bool, needs_write: bool, write_ok: bool) -> (r: bool)
    ensures
        r == (has_compartment && (!needs_write || write_ok)),
{
    has_compartment && (!needs_write || write_ok)
}

/// The input mode and what is shown of it.
#[derive(Clone, Copy, Debug, PartialEq, Eq, Structural)]
pub struct ModeState {
    /// Kana are typed for a while; the mode goes back to direct after that.
    pub ephemeral_kana: bool,
    /// What is shown counts, not what the host has.
    pub direct_mode_owned: bool,
    pub langbar_is_direct: bool,
    pub langbar_ephemeral: bool,
    /// The last change, in milliseconds.
    pub last_mode_toggle: Option<u64>,
    pub default_direct_applied: bool,
    /// The context that was asked whether it takes a password, 0 for none.
    pub password_ctx_key: usize,
    pub password_ctx: bool,
}

/// How a change of the mode begins.
#[derive(Clone, Copy, Debug, PartialEq, Eq, Structural)]
pub enum ToggleStart {
    /// A key is held down.
    Repeat,
    /// Kana for a while became kana for good. What is shown changed.
    Promoted,
    /// There is no mode to change.
    NoCompartment,
    /// The mode has to be set to the value.
    Write { next: u32 },
}

impl ModeState {
    /// Nothing was changed, shown or asked yet.
    pub open spec fn initial() -> ModeState {
        ModeState {
            ephemeral_kana: false,
            direct_mode_owned: false,
            langbar_is_direct: false,
            langbar_ephemeral: false,
            last_mode_toggle: None,
            default_direct_applied: false,
            password_ctx_key: 0,
            password_ctx: false,
        }
    }

    pub fn new() -> (r: Self)
        ensures
            r == ModeState::initial(),
    {
        ModeState {
            ephemeral_kana: false,
            direct_mode_owned: false,
            langbar_is_direct: false,
            langbar_ephemeral: false,
            last_mode_toggle: None,
            default_direct_applied: false,
            password_ctx_key: 0,
            password_ctx: false,
        }
    }

    /// What is shown.
    pub open spec fn shows(self, is_direct: bool, ephemeral: bool) -> ModeState {
        ModeState { langbar_is_direct: is_direct, langbar_ephemeral: ephemeral, ..self }
    }

    /// Changes what is shown. The caller tells the language bar.
    pub fn update_langbar_mode(&mut self, is_direct: bool, ephemeral: bool)
        ensures
            *final(self) == old(self).shows(is_direct, ephemeral),
    {
        self.langbar_is_direct = is_direct;
        self.langbar_ephemeral = ephemeral;
    }

    /// Whether characters go to the document as they are typed.
    pub fn is_direct_mode(&self, live: u32) -> (r: bool)
        ensures
            r == (if self.direct_mode_owned {
                self.langbar_is_direct
            } else {
                types_directly(live)
            }),
    {
        effective_is_direct(self.direct_mode_owned, self.langbar_is_direct, is_direct(live))
    }

    /// The user changed the mode less than a moment ago.
    pub open spec fn toggled_just_now(self, now: u64) -> bool {
        self.last_mode_toggle is Some && now < self.last_mode_toggle->0 + MODE_TOGGLE_REPEAT_GUARD
    }

    /// The user changes the mode. `live` is the host's value, where there is one to set.
    pub fn toggle_conversion_mode(&mut self, now: u64, live: Option<u32>) -> (r: ToggleStart)
        ensures
            ({
                let noted = ModeState { last_mode_toggle: Some(now), ..*old(self) };
                if old(self).toggled_just_now(now) {
                    r == ToggleStart::Repeat && *final(self) == *old(self)
                } else if old(self).ephemeral_kana {
                    r == ToggleStart::Promoted && *final(self) == (ModeState {
                        ephemeral_kana: false,
                        direct_mode_owned: true,
                        ..noted.shows(false, false)
                    })
                } else {
                    *final(self) == noted && r == (match live {
                        None => ToggleStart::NoCompartment,
                        Some(live) => ToggleStart::Write {
                            next: switched(
                                mode_as_set(
                                    old(self).direct_mode_owned,
                                    old(self).langbar_is_direct,
                                    live,
                                ),
                            ),
                        },
                    })
                }
            }),
    {
        let elapsed = match self.last_mode_toggle {
            Some(last) => Some(
                if now >= last {
                    now - last
                } else {
                    0
                },
            ),
            None => None,
        };
        if is_toggle_repeat(elapsed, MODE_TOGGLE_REPEAT_GUARD) {
            return ToggleStart::Repeat;
        }
        self.last_mode_toggle = Some(now);
        if self.ephemeral_kana {
            self.ephemeral_kana = false;
            self.direct_mode_owned = true;
            self.update_langbar_mode(false, false);
            return ToggleStart::Promoted;
        }
        match live {
            None => ToggleStart::NoCompartment,
            Some(live) => ToggleStart::Write {
                next: toggled(
                    toggle_before_mode(self.direct_mode_owned, self.langbar_is_direct, live),
                ),
            },
        }
    }

    /// The mode was set to `next` or not; `after` is the host's value then. What could not be set
    /// is not shown: the host's value counts.
    pub fn conversion_mode_written(&mut self, next: u32, set_ok: bool, after: u32) -> (r: bool)
        ensures
            r == set_ok,
            *final(self) == (if set_ok {
                (ModeState { direct_mode_owned: true, ..*old(self) }).shows(
                    types_directly(next),
                    false,
                )
            } else {
                let stays = old(self).ephemeral_kana && !types_directly(after);
                (ModeState {
                    direct_mode_owned: false,
                    ephemeral_kana: stays,
                    ..*old(self)
                }).shows(types_directly(after), stays)
            }),
    {
        if !set_ok {
            self.direct_mode_owned = false;
            let live_direct = is_direct(after);
            let retry = self.ephemeral_kana && !live_direct;
            if self.ephemeral_kana && live_direct {
                self.ephemeral_kana = false;
            }
            self.update_langbar_mode(live_direct, retry);
            return false;
        }
        self.direct_mode_owned = true;
        self.update_langbar_mode(is_direct(next), false);
        true
    }

    /// The value that the first activation sets, or nothing where the mode is direct already or
    /// cannot be set.
    pub fn default_direct_value(current: Option<u32>) -> (r: Option<u32>)
        ensures
            r == (match current {
                Some(mode) if made_direct(mode) != mode => Some(made_direct(mode)),
                _ => None,
            }),
    {
        match current {
            Some(mode) => {
                let next: u32 = to_direct(mode);
                if next != mode {
                    Some(next)
                } else {
                    None
                }
            },
            None => None,
        }
    }

    /// The first activation made the mode direct or not. `current` is the mode before, where there
    /// was one to set, and `live` the host's value afterwards. The result tells whether it worked;
    /// if not, it is tried again next time, and the host's value is shown.
    pub fn apply_default_direct(&mut self, current: Option<u32>, write_ok: bool, live: u32) -> (r:
        bool)
        ensures
            r == (current is Some && (made_direct(current->0) == current->0 || write_ok)),
            *final(self) == (if !r {
                (ModeState { direct_mode_owned: false, ..*old(self) }).shows(
                    types_directly(live),
                    false,
                )
            } else if old(self).langbar_is_direct {
                ModeState { direct_mode_owned: true, ..*old(self) }
            } else {
                (ModeState { direct_mode_owned: true, ..*old(self) }).shows(true, false)
            }),
    {
        let (has_compartment, needs_write, next) = match current {
            Some(mode) => (true, to_direct(mode) != mode, to_direct(mode)),
            None => (false, false, 0u32),
        };
        if !default_direct_success(has_compartment, needs_write, write_ok) {
            self.direct_mode_owned = false;
            self.update_langbar_mode(is_direct(live), false);
            return false;
        }
        self.direct_mode_owned = true;
        proof {
            let mode = current->0;
            assert((mode & !(1u32 | 8)) & 1 == 0) by (bit_vector);
        }
        let target = is_direct(next);
        if self.langbar_is_direct != target {
            self.update_langbar_mode(target, false);
        }
        true
    }

    /// The value that lets kana be typed for a while.
    pub fn enter_ephemeral_kana(&self, live: Option<u32>) -> (r: Option<u32>)
        ensures
            r == (match live {
                Some(live) => Some(made_native(live)),
                None => None,
            }),
    {
        match live {
            Some(live) => Some(live | CONVMODE_NATIVE),
            None => None,
        }
    }

    /// That value was set or not; `after` is the host's value then.
    pub fn ephemeral_kana_entered(&mut self, ok: bool, after: u32)
        ensures
            *final(self) == (if ok {
                (ModeState { ephemeral_kana: true, direct_mode_owned: true, ..*old(self) }).shows(
                    false,
                    true,
                )
            } else {
                (ModeState { ephemeral_kana: false, direct_mode_owned: false, ..*old(self) }).shows(
                    types_directly(after),
                    false,
                )
            }),
    {
        if !ok {
            self.ephemeral_kana = false;
            self.direct_mode_owned = false;
            self.update_langbar_mode(is_direct(after), false);
            return;
        }
        self.ephemeral_kana = true;
        self.direct_mode_owned = true;
        self.update_langbar_mode(false, true);
    }

    /// The value that ends kana for a while, if kana are typed for a while. Where there is no mode
    /// to set, the wish to go back stays.
    pub fn exit_ephemeral_to_direct(&self, live: Option<u32>) -> (r: Option<u32>)
        ensures
            r == (match live {
                Some(live) if self.ephemeral_kana => Some(made_direct(live)),
                _ => None,
            }),
    {
        if !self.ephemeral_kana {
            return None;
        }
        match live {
            Some(live) => Some(to_direct(live)),
            None => None,
        }
    }

    /// The mode state once that value was set or not.
    pub open spec fn exited(self, ok: bool, after: u32) -> ModeState {
        if ok {
            (ModeState { ephemeral_kana: false, direct_mode_owned: true, ..self }).shows(true, false)
        } else {
            let direct = types_directly(after);
            (ModeState { ephemeral_kana: !direct, direct_mode_owned: false, ..self }).shows(
                direct,
                !direct,
            )
        }
    }

    /// That value was set or not; `after` is the host's value then. A wish to go back that failed
    /// stays, unless the mode is direct anyway.
    pub fn ephemeral_kana_exited(&mut self, ok: bool, after: u32)
        ensures
            *final(self) == old(self).exited(ok, after),
    {
        if !ok {
            let live_direct = is_direct(after);
            self.ephemeral_kana = !live_direct;
            self.direct_mode_owned = false;
            self.update_langbar_mode(live_direct, !live_direct);
            return;
        }
        self.ephemeral_kana = false;
        self.direct_mode_owned = true;
        self.update_langbar_mode(true, false);
    }

    /// What is known of a context once it was asked. A context that cannot be asked is not known,
    /// and is asked again at the next key.
    pub open spec fn asked(self, key: usize, keyboard_disabled: bool, password: Option<bool>)
     -> ModeState {
        if self.password_ctx_key == key {
            self
        } else if keyboard_disabled {
            ModeState { password_ctx_key: key, password_ctx: true, ..self }
        } else {
            match password {
                Some(known) => ModeState { password_ctx_key: key, password_ctx: known, ..self },
                None => ModeState { password_ctx_key: 0, password_ctx: false, ..self },
            }
        }
    }

    /// Whether a context has to be asked whether it takes a password.
    pub fn knows_context(&self, key: usize) -> (r: bool)
        ensures
            r == (self.password_ctx_key == key),
    {
        self.password_ctx_key == key
    }

    /// Whether a context takes a password. The answers count where the context is not known yet.
    pub fn is_password_context(
        &mut self,
        key: usize,
        keyboard_disabled: bool,
        password: Option<bool>,
    ) -> (r: bool)
        ensures
            *final(self) == old(self).asked(key, keyboard_disabled, password),
            r == final(self).password_ctx,
    {
        if self.password_ctx_key != key {
            if keyboard_disabled {
                self.password_ctx_key = key;
                self.password_ctx = true;
            } else {
                match password {
                    Some(known) => {
                        self.password_ctx_key = key;
                        self.password_ctx = known;
                    },
                    None => {
                        self.password_ctx_key = 0;
                        self.password_ctx = false;
                    },
                }
            }
        }
        self.password_ctx
    }

    /// What is known of contexts is forgotten.
    pub fn forget_password_context(&mut self)
        ensures
            *final(self) == (ModeState { password_ctx_key: 0, ..*old(self) }),
    {
        self.password_ctx_key = 0;
    }
}

/// Kana for a while never end up as kana for good by themselves: as long as the way back fails and
/// kana are typed, the wish to go back stays and is shown.
pub proof fn the_way_back_is_not_forgotten(mode: ModeState, ok: bool, after: u32)
    requires
        mode.ephemeral_kana,
    ensures
        mode.exited(ok, after).ephemeral_kana <==> !ok && !types_directly(after),
        mode.exited(ok, after).langbar_ephemeral == mode.exited(ok, after).ephemeral_kana,
        mode.exited(ok, after).langbar_is_direct == !mode.exited(ok, after).ephemeral_kana,
{
}

/// The scope of a password.
pub const IS_PASSWORD: i32 = 31;

/// The scope of a password made of digits.
pub const IS_NUMERIC_PASSWORD: i32 = 63;

/// The scope of a number that identifies.
pub const IS_NUMERIC_PIN: i32 = 64;

/// The scope of a text that identifies.
pub const IS_ALPHANUMERIC_PIN: i32 = 65;

/// The scope of a text that will identify.
pub const IS_ALPHANUMERIC_PIN_SET: i32 = 66;

/// A scope that keeps what is typed secret.
pub open spec fn is_secret(scope: i32) -> bool {
    scope == IS_PASSWORD || scope == IS_NUMERIC_PASSWORD || scope == IS_NUMERIC_PIN || scope
        == IS_ALPHANUMERIC_PIN || scope == IS_ALPHANUMERIC_PIN_SET
}

/// Whether one of the scopes keeps what is typed secret.
pub fn scopes_contain_password(scopes: &[i32]) -> (r: bool)
    ensures
        r == exists|i: int| 0 <= i < scopes@.len() && is_secret(#[trigger] scopes@[i]),
{
    let mut i: usize = 0;
    while i < scopes.len()
        invariant
            i <= scopes@.len(),
            forall|k: int| 0 <= k < i ==> !is_secret(#[trigger] scopes@[k]),
        decreases scopes@.len() - i,
    {
        let scope: i32 = scopes[i];
        if scope == IS_PASSWORD || scope == IS_NUMERIC_PASSWORD || scope == IS_NUMERIC_PIN || scope
            == IS_ALPHANUMERIC_PIN || scope == IS_ALPHANUMERIC_PIN_SET {
            assert(is_secret(scopes@[i as int]));
            return true;
        }
        i = i + 1;
    }
    false
}

/// The type number of a 32-bit integer in a host's value.
pub const VT_I4: u16 = 3;

/// Whether a flag of the host is set. A value of another type is no flag.
pub fn compartment_flag_is_set(vt: u16, value: i32) -> (r: bool)
    ensures
        r == (vt == VT_I4 && value != 0),
{
    vt == VT_I4 && value != 0
}

/// A flag could be read, and it is set.
pub open spec fn flag_is_read_as_set(read: Option<(u16, i32)>) -> bool {
    match read {
        Some((vt, value)) => vt == VT_I4 && value != 0,
        None => false,
    }
}

/// Whether the host wants no input method in a context: it disabled the keyboard, or marked the
/// context as empty. A flag that cannot be read is not set.
pub fn query_context_keyboard_disabled(disabled: Option<(u16, i32)>, empty: Option<(u16, i32)>)
 -> (r: bool)
    ensures
        r == (flag_is_read_as_set(disabled) || flag_is_read_as_set(empty)),
{
    let set = match disabled {
        Some((vt, value)) => compartment_flag_is_set(vt, value),
        None => false,
    };
    set || match empty {
        Some((vt, value)) => compartment_flag_is_set(vt, value),
        None => false,
    }
}

/// The mode that the host holds. Where there is none, or a value of another type, kana are typed.
pub fn conversion_mode_value(read: Option<(u16, i32)>) -> (r: u32)
    ensures
        r == (match read {
            Some((vt, value)) if vt == VT_I4 => value as u32,
            _ => CONVMODE_NATIVE,
        }),
{
    match read {
        Some((vt, value)) if vt == VT_I4 => value as u32,
        _ => CONVMODE_NATIVE,
    }
}

/// Changing the mode twice brings it back. Going direct, or native, is the same however often it is
/// done, and touches only the kana and the wide letters.
pub proof fn a_change_of_the_mode_touches_nothing_else(mode: u32)
    ensures
        switched(switched(mode)) == mode,
        made_direct(made_direct(mode)) == made_direct(mode),
        made_direct(mode) | (mode & 9) == mode,
        made_direct(mode) & 9 == 0,
        made_native(mode) | mode == made_native(mode),
        made_native(mode) & !1u32 == mode & !1u32,
        made_native(mode) & 1 == 1,
        types_directly(mode) <==> mode & 1 == 0,
        switched(mode) != mode,
{
    assert((mode ^ 1) ^ 1 == mode && (mode ^ 1) != mode) by (bit_vector);
    assert((mode & !(1u32 | 8)) & !(1u32 | 8) == mode & !(1u32 | 8) && (mode & !(1u32 | 8)) | (mode
        & 9) == mode && (mode & !(1u32 | 8)) & 9 == 0) by (bit_vector);
    assert((mode | 1) | mode == mode | 1 && (mode | 1) & !1u32 == mode & !1u32 && (mode | 1) & 1 == 1)
        by (bit_vector);
}

/// The mode that a change starts from is the host's, with kana as this service set them, if it set
/// them.
pub proof fn what_was_set_counts(owned: bool, shown_direct: bool, live: u32)
    ensures
        !owned ==> mode_as_set(owned, shown_direct, live) == live,
        owned && shown_direct ==> types_directly(mode_as_set(owned, shown_direct, live)),
        owned && !shown_direct ==> !types_directly(mode_as_set(owned, shown_direct, live)),
        mode_as_set(owned, shown_direct, live) & !1u32 == live & !1u32,
{
    assert((live & !1u32) & 1 == 0 && (live | 1) & 1 == 1 && (live & !1u32) & !1u32 == live & !1u32
        && (live | 1) & !1u32 == live & !1u32) by (bit_vector);
}

/// A key that is held down changes the mode once: a second change within 300 milliseconds is none.
pub proof fn a_held_key_changes_the_mode_once(mode: ModeState, now: u64)
    ensures
        mode.toggled_just_now(now) <==> mode.last_mode_toggle is Some && now
            < mode.last_mode_toggle->0 + 300,
        (ModeState { last_mode_toggle: Some(now), ..mode }).toggled_just_now(now),
        mode.shows(true, false).langbar_is_direct && !mode.shows(true, false).langbar_ephemeral,
        !mode.shows(false, true).langbar_is_direct && mode.shows(false, true).langbar_ephemeral,
        mode.shows(true, false).ephemeral_kana == mode.ephemeral_kana,
        mode.shows(true, false).direct_mode_owned == mode.direct_mode_owned,
        mode.shows(true, false).last_mode_toggle == mode.last_mode_toggle,
        mode.shows(true, false).password_ctx_key == mode.password_ctx_key,
{
}

/// Kana for a while end as direct typing, which this service then owns; where that could not be
/// set, the host's mode counts and is shown.
pub proof fn kana_for_a_while_end_directly(mode: ModeState, ok: bool, after: u32)
    ensures
        ({
            let left = mode.exited(ok, after);
            &&& ok ==> !left.ephemeral_kana && left.direct_mode_owned && left.langbar_is_direct
                && !left.langbar_ephemeral
            &&& !ok ==> !left.direct_mode_owned && left.ephemeral_kana == (after & 1 != 0)
                && left.langbar_is_direct == (after & 1 == 0)
            &&& left.last_mode_toggle == mode.last_mode_toggle
            &&& left.default_direct_applied == mode.default_direct_applied
            &&& left.password_ctx_key == mode.password_ctx_key
        }),
{
}

/// A context is asked once whether it takes a password, and what it says counts until another one is
/// asked; a disabled keyboard counts as a password. What cannot be known is not remembered.
pub proof fn a_password_is_asked_for_once(
    mode: ModeState,
    key: usize,
    disabled: bool,
    password: Option<bool>,
)
    ensures
        mode.password_ctx_key == key ==> mode.asked(key, disabled, password) == mode,
        mode.password_ctx_key != key && disabled ==> mode.asked(key, disabled, password).password_ctx
            && mode.asked(key, disabled, password).password_ctx_key == key,
        mode.password_ctx_key != key && !disabled && password is Some ==> mode.asked(
            key,
            disabled,
            password,
        ).password_ctx == password->0 && mode.asked(key, disabled, password).password_ctx_key == key,
        mode.password_ctx_key != key && !disabled && password is None ==> !mode.asked(
            key,
            disabled,
            password,
        ).password_ctx && mode.asked(key, disabled, password).password_ctx_key == 0,
        mode.asked(key, disabled, password).ephemeral_kana == mode.ephemeral_kana,
        mode.asked(key, disabled, password).langbar_is_direct == mode.langbar_is_direct,
{
}

/// The scopes that keep what is typed secret are the passwords and the PINs, and no others.
pub proof fn passwords_and_pins_are_secret(scope: i32)
    ensures
        is_secret(scope) <==> scope == 31 || scope == 63 || scope == 64 || scope == 65 || scope == 66,
        flag_is_read_as_set(Some((3u16, scope))) <==> scope != 0,
        !flag_is_read_as_set(None),
        forall|vt: u16| vt != 3 ==> !#[trigger] flag_is_read_as_set(Some((vt, scope))),
{
}

/// Nothing is set at first; showing a mode, leaving one and asking for a password touch just that.
pub proof fn nothing_is_set_at_first(
    m: ModeState,
    is_direct: bool,
    ephemeral: bool,
    ok: bool,
    after_exit: u32,
    key: usize,
    disabled: bool,
    password: Option<bool>,
)
    ensures
        ({
            let first = ModeState::initial();
            &&& !first.ephemeral_kana && !first.direct_mode_owned && !first.langbar_is_direct
            &&& !first.langbar_ephemeral && first.last_mode_toggle is None
            &&& !first.default_direct_applied && first.password_ctx_key == 0 && !first.password_ctx
        }),
        m.shows(is_direct, ephemeral) == (ModeState {
            langbar_is_direct: is_direct,
            langbar_ephemeral: ephemeral,
            ..m
        }),
        ({
            let after = m.exited(ok, after_exit);
            &&& after == (ModeState {
                ephemeral_kana: after.ephemeral_kana,
                direct_mode_owned: after.direct_mode_owned,
                langbar_is_direct: after.langbar_is_direct,
                langbar_ephemeral: after.langbar_ephemeral,
                ..m
            })
            &&& after.direct_mode_owned == ok
            &&& after.langbar_ephemeral == after.ephemeral_kana
            &&& after.langbar_is_direct == !after.ephemeral_kana
            &&& ok ==> !after.ephemeral_kana
        }),
        ({
            let after = m.asked(key, disabled, password);
            &&& after == (ModeState {
                password_ctx_key: after.password_ctx_key,
                password_ctx: after.password_ctx,
                ..m
            })
            &&& m.password_ctx_key == key ==> after == m
        }),
{
}

/// The numbers of the modes and of the fields are those of the system; a key is held if it comes
/// again within 300 milliseconds.
pub proof fn the_numbers_of_the_modes()
    ensures
        CONVMODE_NATIVE == 1 && CONVMODE_FULLSHAPE == 8,
        MODE_TOGGLE_REPEAT_GUARD == 300,
        IS_PASSWORD == 31 && IS_NUMERIC_PASSWORD == 63 && IS_NUMERIC_PIN == 64,
        IS_ALPHANUMERIC_PIN == 65 && IS_ALPHANUMERIC_PIN_SET == 66,
        VT_I4 == 3,
{
}

} // verus!
