//! The daemon tick's decision logic: diffing two snapshots of one
//! battery and deriving the desktop notifications the tick should
//! emit, for status edges and level-threshold crossings.
use vstd::prelude::*;
use vstd::string::StringExecFns;
use crate::battery::BatteryState;
use crate::battery::remaining_labelled_str;
use crate::error::BatteryError;
use crate::status::ChargingStatus;
use crate::text::dec_of;
use crate::text::render_u128;

verus! {

/// How insistently a notification should be displayed.
#[derive(Clone, Copy, Debug, PartialEq, Eq, Structural)]
pub enum Urgency {
    Low,
    Normal,
    Critical,
}

/// One desktop notification to emit.
#[derive(Clone, Debug)]
pub struct Notification {
    pub title: String,
    pub body: String,
    pub urgency: Urgency,
}

/// The level notification a tick owes: the highest configured
/// threshold still below the old level, provided the new level
/// reached it; lower thresholds are not considered that tick.
pub open spec fn threshold_cross(old_level: u8, new_level: u8) -> Option<(Seq<char>, Urgency)> {
    if old_level > 50 {
        if new_level <= 50 {
            Some(("at half"@, Urgency::Low))
        } else {
            None
        }
    } else if old_level > 25 {
        if new_level <= 25 {
            Some(("low"@, Urgency::Normal))
        } else {
            None
        }
    } else if old_level > 15 {
        if new_level <= 15 {
            Some(("critical"@, Urgency::Critical))
        } else {
            None
        }
    } else {
        None
    }
}

/// The status-edge notification for a tick that ends in the given
/// snapshot, as (title, body, urgency).
pub open spec fn edge_notif(name: Seq<char>, st: BatteryState) -> (Seq<char>, Seq<char>, Urgency)
    recommends
        st.status is Full || st.current > 0,
{
    match st.status {
        ChargingStatus::Discharging => (
            "Discharging"@,
            name + " is discharging\n"@ + remaining_labelled_str(st)->Ok_0,
            Urgency::Normal,
        ),
        ChargingStatus::Charging => (
            "Charging"@,
            name + " is charging\n"@ + remaining_labelled_str(st)->Ok_0,
            Urgency::Low,
        ),
        ChargingStatus::Full => ("Battery full"@, name + " @ 100%"@, Urgency::Low),
    }
}

/// The level-threshold notification for a tick that ends in the given
/// snapshot, as (title, body, urgency).
pub open spec fn threshold_notif(
    name: Seq<char>,
    st: BatteryState,
    label: Seq<char>,
    urgency: Urgency,
) -> (Seq<char>, Seq<char>, Urgency)
    recommends
        st.status is Full || st.current > 0,
{
    (
        "Battery "@ + label,
        name + " @ "@ + dec_of(st.level as int) + "%\n"@ + remaining_labelled_str(st)->Ok_0,
        urgency,
    )
}

/// Everything one tick notifies, in dispatch order: a status-edge
/// notification when the status changed, then at most one threshold
/// notification. A tick that owes a notification but cannot estimate
/// the remaining time (the battery is not full and draws no current)
/// reports `InsufficientData` instead.
pub open spec fn notifications_for(name: Seq<char>, old: BatteryState, new: BatteryState) -> Result<
    Seq<(Seq<char>, Seq<char>, Urgency)>,
    BatteryError,
> {
    let edge = new.status != old.status;
    let th = threshold_cross(old.level, new.level);
    if (edge || th is Some) && !(new.status is Full) && new.current == 0 {
        Err(BatteryError::InsufficientData)
    } else {
        let base: Seq<(Seq<char>, Seq<char>, Urgency)> = if edge {
            seq![edge_notif(name, new)]
        } else {
            Seq::empty()
        };
        match th {
            Some((label, urgency)) => Ok(base.push(threshold_notif(name, new, label, urgency))),
            None => Ok(base),
        }
    }
}

/// How many of the notifications carry the given title.
pub open spec fn count_titled(ms: Seq<(Seq<char>, Seq<char>, Urgency)>, title: Seq<char>) -> int
    decreases ms.len(),
{
    if ms.len() == 0 {
        0
    } else {
        count_titled(ms.drop_last(), title) + if ms.last().0 == title {
            1int
        } else {
            0
        }
    }
}

/// One tick's notifications, exactly as `notifications_for` says:
/// diff the snapshot from before the update against the one after it
/// and collect what is owed, in dispatch order.
pub fn tick_notifications(name: &str, old: &BatteryState, new: &BatteryState) -> (r: Result<
    Vec<Notification>,
    BatteryError,
>)
    ensures
        (r is Ok) == (notifications_for(name@, *old, *new) is Ok),
        r matches Err(e) ==> e == BatteryError::InsufficientData,
        r matches Ok(v) ==> {
            let ms = notifications_for(name@, *old, *new)->Ok_0;
            &&& v@.len() == ms.len()
            &&& forall|i: int|
                0 <= i < ms.len() ==> (#[trigger] v@[i]).title@ == ms[i].0 && v@[i].body@ == ms[i].1
                    && v@[i].urgency == ms[i].2
        },
{
    let mut out: Vec<Notification> = Vec::new();
    let edge = new.status != old.status;
    let th: Option<(&'static str, Urgency)> = if old.level > 50 {
        if new.level <= 50 {
            Some(("at half", Urgency::Low))
        } else {
            None
        }
    } else if old.level > 25 {
        if new.level <= 25 {
            Some(("low", Urgency::Normal))
        } else {
            None
        }
    } else if old.level > 15 {
        if new.level <= 15 {
            Some(("critical", Urgency::Critical))
        } else {
            None
        }
    } else {
        None
    };
    if edge {
        match new.status {
            ChargingStatus::Discharging => {
                let rl = match new.remaining_labelled() {
                    Ok(rl) => rl,
                    Err(e) => {
                        return Err(e);
                    },
                };
                let mut body = String::new();
                body.append(name);
                body.append(" is discharging\n");
                body.append(rl.as_str());
                proof {
                    assert(body@ =~= edge_notif(name@, *new).1);
                }
                out.push(
                    Notification {
                        title: String::from_str("Discharging"),
                        body,
                        urgency: Urgency::Normal,
                    },
                );
            },
            ChargingStatus::Charging => {
                let rl = match new.remaining_labelled() {
                    Ok(rl) => rl,
                    Err(e) => {
                        return Err(e);
                    },
                };
                let mut body = String::new();
                body.append(name);
                body.append(" is charging\n");
                body.append(rl.as_str());
                proof {
                    assert(body@ =~= edge_notif(name@, *new).1);
                }
                out.push(
                    Notification {
                        title: String::from_str("Charging"),
                        body,
                        urgency: Urgency::Low,
                    },
                );
            },
            ChargingStatus::Full => {
                let mut body = String::new();
                body.append(name);
                body.append(" @ 100%");
                proof {
                    assert(body@ =~= edge_notif(name@, *new).1);
                }
                out.push(
                    Notification {
                        title: String::from_str("Battery full"),
                        body,
                        urgency: Urgency::Low,
                    },
                );
            },
        }
    }
    if let Some((label, urgency)) = th {
        let rl = match new.remaining_labelled() {
            Ok(rl) => rl,
            Err(e) => {
                return Err(e);
            },
        };
        let mut title = String::from_str("Battery ");
        title.append(label);
        let mut body = String::new();
        body.append(name);
        body.append(" @ ");
        let lv = render_u128(new.level as u128);
        body.append(lv.as_str());
        body.append("%\n");
        body.append(rl.as_str());
        proof {
            let ghost m = threshold_notif(name@, *new, label@, urgency);
            assert(title@ =~= m.0);
            assert(body@ =~= m.1);
        }
        out.push(Notification { title, body, urgency });
    }
    proof {
        let ms = notifications_for(name@, *old, *new)->Ok_0;
        if edge {
            assert(ms[0].0 == edge_notif(name@, *new).0);
        }
        assert(out@.len() == ms.len());
    }
    Ok(out)
}

/// Law: the level notification belongs to the highest breached
/// threshold. A tick owes one exactly when some configured threshold
/// lies below the old level and at or above the new one, and the one
/// owed is that of the highest such threshold.
pub proof fn lemma_threshold_cross_highest(old_level: u8, new_level: u8)
    ensures
        (threshold_cross(old_level, new_level) is Some) <==> ((old_level > 50 && new_level <= 50)
            || (old_level > 25 && new_level <= 25) || (old_level > 15 && new_level <= 15)),
        old_level > 50 && new_level <= 50 ==> threshold_cross(old_level, new_level) == Some(
            ("at half"@, Urgency::Low),
        ),
        !(old_level > 50 && new_level <= 50) && old_level > 25 && new_level <= 25
            ==> threshold_cross(old_level, new_level) == Some(("low"@, Urgency::Normal)),
        !(old_level > 25 && new_level <= 25) && old_level > 15 && new_level <= 15
            ==> threshold_cross(old_level, new_level) == Some(("critical"@, Urgency::Critical)),
{
}

/// Law: a tick whose status went from Discharging to Charging emits
/// exactly one notification titled `Charging` and none titled
/// `Discharging`. Stated for ticks that can estimate the remaining
/// time; with a zero current draw the tick reports `InsufficientData`
/// and emits nothing at all.
pub proof fn lemma_discharging_to_charging(name: Seq<char>, old: BatteryState, new: BatteryState)
    requires
        old.status == ChargingStatus::Discharging,
        new.status == ChargingStatus::Charging,
        new.current > 0,
    ensures
        notifications_for(name, old, new) is Ok,
        count_titled(notifications_for(name, old, new)->Ok_0, "Charging"@) == 1,
        count_titled(notifications_for(name, old, new)->Ok_0, "Discharging"@) == 0,
{
    reveal_with_fuel(count_titled, 4);
    reveal_strlit("Charging");
    reveal_strlit("Discharging");
    reveal_strlit("Battery ");
    let ms = notifications_for(name, old, new)->Ok_0;
    let e = edge_notif(name, new);
    assert(e.0 == "Charging"@);
    assert("Charging"@ != "Discharging"@);
    match threshold_cross(old.level, new.level) {
        Some((label, urgency)) => {
            let t = threshold_notif(name, new, label, urgency);
            assert(t.0 == "Battery "@ + label);
            assert(t.0[0] == 'B');
            assert(t.0 != "Charging"@ && t.0 != "Discharging"@);
            assert(ms =~= seq![e].push(t));
            assert(ms.drop_last() =~= seq![e]);
            assert(seq![e].drop_last() =~= Seq::<(Seq<char>, Seq<char>, Urgency)>::empty());
        },
        None => {
            assert(ms =~= seq![e]);
            assert(ms.drop_last() =~= Seq::<(Seq<char>, Seq<char>, Urgency)>::empty());
        },
    }
}

/// Law: a tick whose status did not change and whose level fell from
/// above the half threshold to at most it — while staying above the
/// low threshold — emits exactly one notification, the one for the
/// half threshold, not the one for the low threshold. Stated for
/// ticks that can estimate the remaining time; with a zero current
/// draw the tick reports `InsufficientData` and emits nothing at all.
pub proof fn lemma_half_crossing(name: Seq<char>, old: BatteryState, new: BatteryState)
    requires
        old.status == new.status,
        new.status is Full || new.current > 0,
        old.level > 50,
        25 < new.level <= 50,
    ensures
        notifications_for(name, old, new) matches Ok(ms) && ms.len() == 1 && ms[0].0 == "Battery "@
            + "at half"@ && ms[0].2 == Urgency::Low,
{
    let ms = notifications_for(name, old, new)->Ok_0;
    assert(ms =~= Seq::<(Seq<char>, Seq<char>, Urgency)>::empty().push(
        threshold_notif(name, new, "at half"@, Urgency::Low),
    ));
}

} // verus!
