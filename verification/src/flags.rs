//! The switches of a run.

use vstd::prelude::*;
use vstd::string::*;

verus! {

/// The switches of a run. They are read once, before the first query, and handed to
/// whatever needs them.
#[derive(Clone, Copy, Debug, PartialEq, Eq, Structural)]
pub struct BuggleFlags {
    /// Show a line for each query before it is run.
    pub verbose: bool,
    /// Make no request: every count stays unknown.
    pub dry_run: bool,
    /// Post the summary once it is made.
    pub twitter: bool,
}

/// The value of a switch that may be absent.
pub open spec fn or_default(setting: Option<bool>, default: bool) -> bool {
    match setting {
        Some(b) => b,
        None => default,
    }
}

/// The flags that the settings give. An absent switch takes the safe side: talk, make no
/// request, post nothing.
pub open spec fn settings_flags(
    verbose: Option<bool>,
    dry_run: Option<bool>,
    twitter: Option<bool>,
) -> BuggleFlags {
    BuggleFlags {
        verbose: or_default(verbose, true),
        dry_run: or_default(dry_run, true),
        twitter: or_default(twitter, false),
    }
}

/// Whether one of the arguments is exactly `switch`.
pub open spec fn has_switch(args: Seq<String>, switch: Seq<char>) -> bool {
    exists|i: int| 0 <= i < args.len() && #[trigger] args[i]@ == switch
}

/// The flags after the command line has been heard: `-V` or `--verbose`, `-n` or
/// `--dry-run`, and `--twitter` each turn their flag on; none turns one off.
pub open spec fn flags_with_args(flags: BuggleFlags, args: Seq<String>) -> BuggleFlags {
    BuggleFlags {
        verbose: flags.verbose || has_switch(args, "-V"@) || has_switch(args, "--verbose"@),
        dry_run: flags.dry_run || has_switch(args, "-n"@) || has_switch(args, "--dry-run"@),
        twitter: flags.twitter || has_switch(args, "--twitter"@),
    }
}

/// The flags with every switch off.
pub open spec fn no_flags() -> BuggleFlags {
    BuggleFlags { verbose: false, dry_run: false, twitter: false }
}

/// Looks for `switch` among the arguments.
pub fn find_switch(args: &Vec<String>, switch: &str) -> (found: bool)
    ensures
        found == has_switch(args@, switch@),
{
    let wanted: String = String::from_str(switch);
    let mut i: usize = 0;
    while i < args.len()
        invariant
            i <= args.len(),
            wanted@ == switch@,
            forall|j: int| 0 <= j < i ==> args[j]@ != switch@,
        decreases args.len() - i,
    {
        if args[i] == wanted {
            return true;
        }
        i = i + 1;
    }
    false
}

impl BuggleFlags {
    /// The flags that the settings give, with the safe value for each absent switch.
    pub fn from_settings(
        verbose: Option<bool>,
        dry_run: Option<bool>,
        twitter: Option<bool>,
    ) -> (flags: BuggleFlags)
        ensures
            flags == settings_flags(verbose, dry_run, twitter),
    {
        BuggleFlags {
            verbose: match verbose {
                Some(b) => b,
                None => true,
            },
            dry_run: match dry_run {
                Some(b) => b,
                None => true,
            },
            twitter: match twitter {
                Some(b) => b,
                None => false,
            },
        }
    }

    /// The flags that the command line alone gives.
    pub fn from_args(args: &Vec<String>) -> (flags: BuggleFlags)
        ensures
            flags == flags_with_args(no_flags(), args@),
    {
        BuggleFlags { verbose: false, dry_run: false, twitter: false }.with_args(args)
    }

    /// These flags, and those that the command line turns on.
    pub fn with_args(self, args: &Vec<String>) -> (flags: BuggleFlags)
        ensures
            flags == flags_with_args(self, args@),
    {
        BuggleFlags {
            verbose: self.verbose || find_switch(args, "-V") || find_switch(args, "--verbose"),
            dry_run: self.dry_run || find_switch(args, "-n") || find_switch(args, "--dry-run"),
            twitter: self.twitter || find_switch(args, "--twitter"),
        }
    }
}

impl Default for BuggleFlags {
    /// The safe flags: talk, make no request, post nothing.
    fn default() -> (flags: BuggleFlags)
        ensures
            flags == settings_flags(None, None, None),
    {
        BuggleFlags::from_settings(None, None, None)
    }
}

} // verus!
