//! Options that change how a browser is opened.

use vstd::prelude::*;
use vstd::string::StringExecFns;

verus! {

/// Options to override certain default behaviour. Any option named as a
/// `hint` is not guaranteed to be honoured.
#[derive(Clone, Debug, PartialEq, Eq, Hash)]
pub struct BrowserOptions {
    /// Whether the output of a browser started in the background is discarded.
    pub suppress_output: bool,
    /// Where the page should open ("_blank", "_self", ...).
    pub target_hint: String,
    /// Whether to stop short of starting anything.
    pub dry_run: bool,
}

/// The text of a truth value.
pub open spec fn bool_text(b: bool) -> Seq<char> {
    if b {
        "true"@
    } else {
        "false"@
    }
}

impl Default for BrowserOptions {
    fn default() -> (r: BrowserOptions)
        ensures
            r.suppress_output,
            !r.dry_run,
            r.target_hint@ == "_blank"@,
    {
        BrowserOptions {
            suppress_output: true,
            target_hint: String::from_str("_blank"),
            dry_run: false,
        }
    }
}

impl BrowserOptions {
    /// The options in force unless changed: output suppressed, a new tab or
    /// window hinted at, and no dry run.
    pub fn new() -> (r: BrowserOptions)
        ensures
            r.suppress_output,
            !r.dry_run,
            r.target_hint@ == "_blank"@,
    {
        BrowserOptions {
            suppress_output: true,
            target_hint: String::from_str("_blank"),
            dry_run: false,
        }
    }

    /// Determines whether stdout/stderr of the appropriate browser command is
    /// suppressed or not.
    pub fn with_suppress_output(&mut self, suppress_output: bool) -> (r: &mut Self)
        ensures
            r.suppress_output == suppress_output,
            r.target_hint == old(self).target_hint,
            r.dry_run == old(self).dry_run,
            *final(self) == *final(r),
    {
        self.suppress_output = suppress_output;
        self
    }

    /// Hint to the browser to open the url in the corresponding target. This
    /// is just a hint, it may or may not be honoured.
    pub fn with_target_hint(&mut self, target_hint: &str) -> (r: &mut Self)
        ensures
            r.target_hint@ == target_hint@,
            r.suppress_output == old(self).suppress_output,
            r.dry_run == old(self).dry_run,
            *final(self) == *final(r),
    {
        self.target_hint = String::from_str(target_hint);
        self
    }

    /// Do not do an actual execution, just report whether it would likely
    /// have succeeded.
    pub fn with_dry_run(&mut self, dry_run: bool) -> (r: &mut Self)
        ensures
            r.dry_run == dry_run,
            r.suppress_output == old(self).suppress_output,
            r.target_hint == old(self).target_hint,
            *final(self) == *final(r),
    {
        self.dry_run = dry_run;
        self
    }

    /// The options written out.
    pub open spec fn shown(&self) -> Seq<char> {
        "BrowserOptions(supress_output="@ + bool_text(self.suppress_output) + ", target_hint="@
            + self.target_hint@ + ", dry_run="@ + bool_text(self.dry_run) + ")"@
    }

    /// The options written out.
    pub fn to_string(&self) -> (r: String)
        ensures
            r@ == self.shown(),
    {
        let mut out = String::from_str("BrowserOptions(supress_output=");
        out.append(if self.suppress_output { "true" } else { "false" });
        out.append(", target_hint=");
        out.append(self.target_hint.as_str());
        out.append(", dry_run=");
        out.append(if self.dry_run { "true" } else { "false" });
        out.append(")");
        out
    }
}

} // verus!
