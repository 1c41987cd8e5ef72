//! Notification content: maps each alert to the one-shot notification
//! it is delivered as — application name, summary, body, icon hint,
//! urgency and auto-dismiss timeout. The delivery transport renders a
//! `Notification` verbatim.

use vstd::prelude::*;
use vstd::string::StringExecFns;

use crate::alert::AlertEvent;

verus! {

/// Urgency hint of a notification. Critical notifications never
/// auto-dismiss; everything else is ordinary.
#[derive(Clone, Copy, Debug, PartialEq, Eq, Structural)]
pub enum Urgency {
    Normal,
    Critical,
}

/// One fully decided user notification, ready for delivery.
#[derive(Debug)]
pub struct Notification {
    /// Name the notification is attributed to.
    pub app_name: String,
    /// Headline text.
    pub summary: String,
    /// Longer text under the headline; may be empty.
    pub body: String,
    /// Icon hint for the notification server.
    pub icon: String,
    pub urgency: Urgency,
    /// Auto-dismiss timeout in milliseconds. Zero means the
    /// notification never expires — reserved for the blocking
    /// critical alert; every other alert auto-dismisses after a
    /// positive timeout.
    pub timeout_ms: u32,
}

/// How long an informational notification (connect, disconnect,
/// state change) stays up before auto-dismissing.
pub const INFO_TIMEOUT_MS: u32 = 2000;

/// How long a low-battery notification stays up before
/// auto-dismissing.
pub const LOW_TIMEOUT_MS: u32 = 5000;

/// The decimal digit character for `d` in `0..=9`.
pub open spec fn spec_digit(d: int) -> char {
    if d == 0 {
        '0'
    } else if d == 1 {
        '1'
    } else if d == 2 {
        '2'
    } else if d == 3 {
        '3'
    } else if d == 4 {
        '4'
    } else if d == 5 {
        '5'
    } else if d == 6 {
        '6'
    } else if d == 7 {
        '7'
    } else if d == 8 {
        '8'
    } else {
        '9'
    }
}

/// The decimal text of a whole percent value in `[0, 100]`.
pub open spec fn spec_percent_chars(n: u8) -> Seq<char> {
    if n >= 100 {
        seq!['1', '0', '0']
    } else if n >= 10 {
        seq![spec_digit(n as int / 10), spec_digit(n as int % 10)]
    } else {
        seq![spec_digit(n as int)]
    }
}

/// The text of one decimal digit.
fn digit_str(d: u8) -> (r: &'static str)
    requires
        d < 10,
    ensures
        r@ == seq![spec_digit(d as int)],
{
    proof {
        reveal_strlit("0");
        reveal_strlit("1");
        reveal_strlit("2");
        reveal_strlit("3");
        reveal_strlit("4");
        reveal_strlit("5");
        reveal_strlit("6");
        reveal_strlit("7");
        reveal_strlit("8");
        reveal_strlit("9");
        assert("0"@ =~= seq!['0']);
        assert("1"@ =~= seq!['1']);
        assert("2"@ =~= seq!['2']);
        assert("3"@ =~= seq!['3']);
        assert("4"@ =~= seq!['4']);
        assert("5"@ =~= seq!['5']);
        assert("6"@ =~= seq!['6']);
        assert("7"@ =~= seq!['7']);
        assert("8"@ =~= seq!['8']);
        assert("9"@ =~= seq!['9']);
    }
    if d == 0 {
        "0"
    } else if d == 1 {
        "1"
    } else if d == 2 {
        "2"
    } else if d == 3 {
        "3"
    } else if d == 4 {
        "4"
    } else if d == 5 {
        "5"
    } else if d == 6 {
        "6"
    } else if d == 7 {
        "7"
    } else if d == 8 {
        "8"
    } else {
        "9"
    }
}

/// Renders a whole percent value as decimal text.
pub fn percent_string(n: u8) -> (s: String)
    requires
        n <= 100,
    ensures
        s@ == spec_percent_chars(n),
{
    if n == 100 {
        let s = String::from_str("100");
        proof {
            reveal_strlit("100");
            assert(s@ =~= seq!['1', '0', '0']);
        }
        s
    } else if n >= 10 {
        let s = String::from_str(digit_str(n / 10)).concat(digit_str(n % 10));
        proof {
            assert(s@ =~= seq![spec_digit(n as int / 10), spec_digit(n as int % 10)]);
        }
        s
    } else {
        String::from_str(digit_str(n))
    }
}

/// Decides the notification one alert is delivered as.
///
/// Level alerts carry advice: the low one asks for the charger with a
/// short auto-dismiss, the critical one never auto-dismisses, uses
/// the critical urgency hint, and warns of an imminent suspend when
/// it concerns the primary battery. Connection, disconnection and
/// state changes are informational one-liners.
pub fn render(alert: &AlertEvent) -> (n: Notification)
    requires
        alert matches AlertEvent::Connected { percentage, .. } ==> percentage <= 100,
    ensures
        n.app_name@ == "Batman"@,
        alert matches AlertEvent::Connected { vendor, percentage } ==> n.summary@ == vendor@
            + " connected: "@ + spec_percent_chars(*percentage) + "%"@ && n.body@ == Seq::<
            char,
        >::empty() && n.icon@ == "battery-symbolic"@ && n.urgency == Urgency::Normal
            && n.timeout_ms == INFO_TIMEOUT_MS,
        alert matches AlertEvent::Disconnected { vendor } ==> n.summary@ == vendor@
            + " disconnected"@ && n.body@ == Seq::<char>::empty() && n.icon@
            == "battery-symbolic"@ && n.urgency == Urgency::Normal && n.timeout_ms
            == INFO_TIMEOUT_MS,
        alert matches AlertEvent::StateChanged { vendor, state } ==> n.summary@ == vendor@
            + " is now "@ + state.spec_label() && n.body@ == Seq::<char>::empty() && n.icon@
            == "battery-symbolic"@ && n.urgency == Urgency::Normal && n.timeout_ms
            == INFO_TIMEOUT_MS,
        alert matches AlertEvent::LowBattery { vendor } ==> n.summary@ == "Low battery on "@
            + vendor@ && n.body@ == "Please connect the charger"@ && n.icon@
            == "battery-level-10-symbolic"@ && n.urgency == Urgency::Normal && n.timeout_ms
            == LOW_TIMEOUT_MS,
        alert matches AlertEvent::CriticalBattery { vendor, is_primary } ==> n.summary@
            == "Critical battery on "@ + vendor@ && n.body@ == (if *is_primary {
            "The device will suspend in 60 seconds"@
        } else {
            "Please connect the charger immediately"@
        }) && n.icon@ == "battery-level-0-symbolic"@ && n.urgency == Urgency::Critical
            && n.timeout_ms == 0,
{
    match alert {
        AlertEvent::Connected { vendor, percentage } => Notification {
            app_name: String::from_str("Batman"),
            summary: vendor.clone().concat(" connected: ").concat(
                percent_string(*percentage).as_str(),
            ).concat("%"),
            body: String::new(),
            icon: String::from_str("battery-symbolic"),
            urgency: Urgency::Normal,
            timeout_ms: INFO_TIMEOUT_MS,
        },
        AlertEvent::Disconnected { vendor } => Notification {
            app_name: String::from_str("Batman"),
            summary: vendor.clone().concat(" disconnected"),
            body: String::new(),
            icon: String::from_str("battery-symbolic"),
            urgency: Urgency::Normal,
            timeout_ms: INFO_TIMEOUT_MS,
        },
        AlertEvent::StateChanged { vendor, state } => Notification {
            app_name: String::from_str("Batman"),
            summary: vendor.clone().concat(" is now ").concat(state.label()),
            body: String::new(),
            icon: String::from_str("battery-symbolic"),
            urgency: Urgency::Normal,
            timeout_ms: INFO_TIMEOUT_MS,
        },
        AlertEvent::LowBattery { vendor } => Notification {
            app_name: String::from_str("Batman"),
            summary: String::from_str("Low battery on ").concat(vendor.as_str()),
            body: String::from_str("Please connect the charger"),
            icon: String::from_str("battery-level-10-symbolic"),
            urgency: Urgency::Normal,
            timeout_ms: LOW_TIMEOUT_MS,
        },
        AlertEvent::CriticalBattery { vendor, is_primary } => Notification {
            app_name: String::from_str("Batman"),
            summary: String::from_str("Critical battery on ").concat(vendor.as_str()),
            body: if *is_primary {
                String::from_str("The device will suspend in 60 seconds")
            } else {
                String::from_str("Please connect the charger immediately")
            },
            icon: String::from_str("battery-level-0-symbolic"),
            urgency: Urgency::Critical,
            timeout_ms: 0,
        },
    }
}

} // verus!
