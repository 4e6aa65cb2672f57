//! Informational messages surfaced to the player.

use vstd::prelude::*;

use crate::human::GameHuman;
use crate::state::MonthlyReport;

verus! {

/// A message opened in a modal toward the player.
#[derive(Debug, Clone, PartialEq)]
pub enum Message {
    /// A simple message with only a title and message.
    Simple { title: String, message: String },
    /// A tutorial message, carrying the tutorial phase to present.
    Tutorial(u32),
    /// End of month message.
    EndOfMonth(MonthlyReport),
}

/// What `str::replace` returns: the text with every occurrence of a
/// pattern replaced, a function of the three texts alone.
pub uninterp spec fn replaced(text: Seq<char>, pattern: Seq<char>, with: Seq<char>) -> Seq<char>;

/// Relies on str::replace: replaces every match of `pattern` in `text`
/// with `with`; the result depends on the three strings alone.
#[verifier::external_body]
fn replace_text(text: &str, pattern: &str, with: &str) -> (r: String)
    ensures
        r@ == replaced(text@, pattern@, with@),
{
    text.replace(pattern, with)
}

/// The message text produced by substituting each pair of `vars`, in
/// order, into `message`.
pub open spec fn with_vars(message: Seq<char>, vars: Seq<(String, String)>) -> Seq<char>
    decreases vars.len(),
{
    if vars.len() == 0 {
        message
    } else {
        with_vars(replaced(message, vars[0].0@, vars[0].1@), vars.skip(1))
    }
}

impl Message {
    /// Create a new simple message.
    pub fn new_simple(title: String, message: String) -> (m: Self)
        ensures
            m == (Message::Simple { title, message }),
    {
        Message::Simple { title, message }
    }

    /// Create a new simple message with template variable replacements
    /// (e.g. `$PROJECT_NAME`), applied in the order given.
    pub fn new_simple_with_vars(title: String, message: String, vars: &Vec<(String, String)>) -> (m:
        Self)
        ensures
            m matches Message::Simple { title: t, message: s } && t == title && s@ == with_vars(
                message@,
                vars@,
            ),
    {
        let ghost full_message: Seq<char> = message@;
        let mut message: String = message;
        let n: usize = vars.len();
        let mut i: usize = 0;
        proof {
            assert(vars@.skip(0) =~= vars@);
        }
        while i < n
            invariant
                i <= n,
                n == vars@.len(),
                with_vars(message@, vars@.skip(i as int)) == with_vars(full_message, vars@),
            decreases n - i,
        {
            proof {
                assert(vars@.skip(i as int).skip(1) =~= vars@.skip(i as int + 1));
            }
            let pair: &(String, String) = &vars[i];
            message = replace_text(message.as_str(), pair.0.as_str(), pair.1.as_str());
            i = i + 1;
        }
        Message::Simple { title, message }
    }

    /// The canned chat report with the given ID.
    pub open spec fn report_text(report_id: u32) -> Seq<char> {
        if report_id == 0 {
            "Today is pizza day! 🍕 Don't forget to mark your preference in the #lunch channel!"@
        } else if report_id == 1 {
            "Don't forget that next Wednesday is Meme day. Post your memes on the #memes channel."@
        } else if report_id == 2 {
            "Hey folks, let's go grab some coffee! ☕"@
        } else if report_id == 3 {
            "I heard it's been a rough night for the DevOps team. I wonder why we still have a single DevOps team in the first place..."@
        } else if report_id == 4 {
            "Things have been complicated over at DevOps. Lend a hand if you can."@
        } else if report_id == 5 {
            "Today's sprint meeting was postponed to Thursday after lunch."@
        } else if report_id == 6 {
            "Meetings, meetings, meetings. Can't get no work done with all these meetings! 😒"@
        } else if report_id == 7 {
            "Big Company at it again, huh?"@
        } else if report_id == 8 {
            "Is CI OK? It's taking ages to build!"@
        } else {
            "Sorry, my mistake. There is no message for you."@
        }
    }

    /// A random flavor message delivered over chat.
    pub fn random_report(report_id: u32) -> (m: Self)
        ensures
            m matches Message::Simple { title: t, message: s } && t@
                == "General message via chat"@ && s@ == Message::report_text(report_id),
    {
        let title = String::from_str("General message via chat");
        let message: &str = match report_id {
            0 => "Today is pizza day! 🍕 Don't forget to mark your preference in the #lunch channel!",
            1 => "Don't forget that next Wednesday is Meme day. Post your memes on the #memes channel.",
            2 => "Hey folks, let's go grab some coffee! ☕",
            3 => "I heard it's been a rough night for the DevOps team. I wonder why we still have a single DevOps team in the first place...",
            4 => "Things have been complicated over at DevOps. Lend a hand if you can.",
            5 => "Today's sprint meeting was postponed to Thursday after lunch.",
            6 => "Meetings, meetings, meetings. Can't get no work done with all these meetings! 😒",
            7 => "Big Company at it again, huh?",
            8 => "Is CI OK? It's taking ages to build!",
            _ => "Sorry, my mistake. There is no message for you.",
        };
        Message::Simple { title, message: String::from_str(message) }
    }

    /// The message for a client-reported bug.
    pub fn bug_reported() -> (m: Self)
        ensures
            m matches Message::Simple { title: t, message: s } && t@
                == "A message from the board of directors"@ && s@
                == "Clients are complaining about a problem with the software. This is crippling our image. Please fix it as soon as possible."@,
    {
        Message::Simple {
            title: String::from_str("A message from the board of directors"),
            message: String::from_str(
                "Clients are complaining about a problem with the software. This is crippling our image. Please fix it as soon as possible.",
            ),
        }
    }

    /// The message for a sudden growth in technical debt.
    pub fn extra_technical_debt() -> (m: Self)
        ensures
            m matches Message::Simple { title: t, message: s } && t@
                == "Emergency dev meeting report"@ && s@
                == "Team members have called out that one of the key dependencies is very outdated, and are having trouble working with this version. Consider placing more efforts in migrating dependencies."@,
    {
        Message::Simple {
            title: String::from_str("Emergency dev meeting report"),
            message: String::from_str(
                "Team members have called out that one of the key dependencies is very outdated, and are having trouble working with this version. Consider placing more efforts in migrating dependencies.",
            ),
        }
    }

    /// The message for a client-requested feature.
    pub fn feature_requested() -> (m: Self)
        ensures
            m matches Message::Simple { title: t, message: s } && t@
                == "A message from the board of directors"@ && s@
                == "Our favorite client has requested a feature. Please be sure to work on it in due time."@,
    {
        Message::Simple {
            title: String::from_str("A message from the board of directors"),
            message: String::from_str(
                "Our favorite client has requested a feature. Please be sure to work on it in due time.",
            ),
        }
    }

    /// The message announcing a newly hired worker.
    pub fn new_human(human: &GameHuman) -> (m: Self)
        ensures
            m matches Message::Simple { title: t, message: s } && t@
                == "A message from the board of directors"@ && s@ == human.name@
                + " has been hired, and is now part of your development team!"@,
    {
        let mut message = String::from_str(human.name.as_str());
        message.append(" has been hired, and is now part of your development team!");
        Message::Simple {
            title: String::from_str("A message from the board of directors"),
            message,
        }
    }

    /// The message announcing that a worker left the team for good.
    pub fn human_quit(name: &str) -> (m: Self)
        ensures
            m matches Message::Simple { title: t, message: s } && t@ == name@
                + " is leaving the team"@ && s@ == "You were just informed that "@ + name@
                + " could not keep up with the pressure and left the company."@,
    {
        let mut title = String::from_str(name);
        title.append(" is leaving the team");
        let mut message = String::from_str("You were just informed that ");
        message.append(name);
        message.append(" could not keep up with the pressure and left the company.");
        Message::Simple { title, message }
    }
}

} // verus!
