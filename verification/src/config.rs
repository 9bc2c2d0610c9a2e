use vstd::prelude::*;

use crate::cli::Args;

verus! {

/// One second, in nanoseconds.
pub const NANOS_PER_SEC: u128 = 1_000_000_000;

/// One minute, in nanoseconds.
pub const NANOS_PER_MIN: u128 = 60_000_000_000;

/// The timer's settings.
#[derive(Clone, Copy, Debug, PartialEq, Eq, Structural)]
pub struct Config {
    /// Work session length.
    pub work: u128,
    /// Short break length.
    pub short_break: u128,
    /// Long break length.
    pub long_break: u128,
    /// Work sessions before a long break.
    pub sessions_before_long_break: u32,
    /// Send desktop notifications on phase changes.
    pub notify: bool,
    /// Hold the timer on a full-screen alert between phases.
    pub alert_screen: bool,
}

impl Config {
    /// The settings a fresh installation starts with: 25 minutes of work, a
    /// 5 minute short break, a 15 minute long break after every 4 sessions,
    /// notifications and the alert screen on.
    pub open spec fn spec_default() -> Config {
        Config {
            work: (25 * NANOS_PER_MIN) as u128,
            short_break: (5 * NANOS_PER_MIN) as u128,
            long_break: (15 * NANOS_PER_MIN) as u128,
            sessions_before_long_break: 4,
            notify: true,
            alert_screen: true,
        }
    }

    /// What `merge_args` makes of `self` and `args`.
    pub open spec fn spec_merge_args(self, args: Args) -> Config {
        Config {
            work: match args.work {
                Some(w) => w,
                None => self.work,
            },
            short_break: match args.short_break {
                Some(b) => b,
                None => self.short_break,
            },
            long_break: match args.long_break {
                Some(b) => b,
                None => self.long_break,
            },
            sessions_before_long_break: match args.sessions {
                Some(s) => if s >= 1 { s } else { 1 },
                None => self.sessions_before_long_break,
            },
            notify: self.notify && !args.no_notify,
            alert_screen: self.alert_screen && !args.no_alert,
        }
    }

    /// CLI arguments override config file values.
    pub fn merge_args(self, args: &Args) -> (merged: Self)
        ensures
            merged == self.spec_merge_args(*args),
    {
        let mut c = self;
        if let Some(work) = args.work {
            c.work = work;
        }
        if let Some(short_break) = args.short_break {
            c.short_break = short_break;
        }
        if let Some(long_break) = args.long_break {
            c.long_break = long_break;
        }
        if let Some(sessions) = args.sessions {
            c.sessions_before_long_break = if sessions >= 1 { sessions } else { 1 };
        }
        if args.no_notify {
            c.notify = false;
        }
        if args.no_alert {
            c.alert_screen = false;
        }
        c
    }
}

impl Default for Config {
    fn default() -> (c: Self)
        ensures
            c == Config::spec_default(),
    {
        Config {
            work: 25 * NANOS_PER_MIN,
            short_break: 5 * NANOS_PER_MIN,
            long_break: 15 * NANOS_PER_MIN,
            sessions_before_long_break: 4,
            notify: true,
            alert_screen: true,
        }
    }
}

/// Without command-line options the config file's values stand.
pub proof fn lemma_no_args_keep_config(c: Config, args: Args)
    requires
        args.none_given(),
    ensures
        c.spec_merge_args(args) == c,
{
}

/// Merging never makes a cycle empty: a config with at least one session
/// before a long break keeps at least one, whatever the arguments say.
pub proof fn lemma_merge_keeps_a_session(c: Config, args: Args)
    requires
        c.sessions_before_long_break >= 1,
    ensures
        c.spec_merge_args(args).sessions_before_long_break >= 1,
{
}

/// Merging is idempotent: applying the same arguments twice is applying
/// them once.
pub proof fn lemma_merge_idempotent(c: Config, args: Args)
    ensures
        c.spec_merge_args(args).spec_merge_args(args) == c.spec_merge_args(args),
{
}


/// Each switch on the command line turns off its own setting and no other:
/// --no-notify turns notifications off, --no-alert the alert screen;
/// without its switch a setting keeps the config file's value, and flipping
/// one switch never changes the other setting. A length or a session count
/// given on the command line replaces the file's; one not given keeps it.
pub proof fn lemma_options_override_only_their_setting(c: Config, args: Args)
    ensures
        args.no_notify ==> !c.spec_merge_args(args).notify,
        !args.no_notify ==> c.spec_merge_args(args).notify == c.notify,
        args.no_alert ==> !c.spec_merge_args(args).alert_screen,
        !args.no_alert ==> c.spec_merge_args(args).alert_screen == c.alert_screen,
        c.spec_merge_args(Args { no_alert: !args.no_alert, ..args }).notify == c.spec_merge_args(
            args,
        ).notify,
        c.spec_merge_args(Args { no_notify: !args.no_notify, ..args }).alert_screen
            == c.spec_merge_args(args).alert_screen,
        args.work is Some ==> c.spec_merge_args(args).work == args.work->0,
        args.work is None ==> c.spec_merge_args(args).work == c.work,
        args.short_break is Some ==> c.spec_merge_args(args).short_break == args.short_break->0,
        args.short_break is None ==> c.spec_merge_args(args).short_break == c.short_break,
        args.long_break is Some ==> c.spec_merge_args(args).long_break == args.long_break->0,
        args.long_break is None ==> c.spec_merge_args(args).long_break == c.long_break,
        args.sessions is None ==> c.spec_merge_args(args).sessions_before_long_break
            == c.sessions_before_long_break,
        (args.sessions is Some && args.sessions->0 >= 1) ==> c.spec_merge_args(
            args,
        ).sessions_before_long_break == args.sessions->0,
{
}

} // verus!
