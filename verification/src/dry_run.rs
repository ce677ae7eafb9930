//! What a dry run says of a real run, on Linux, the BSDs and Haiku.
//!
//! A dry run goes the way of a real run up to the point at which the real
//! run would start a browser, and ends there in success. So, given the same
//! replies:
//! - where the dry run asks for something, the real run asks for the same;
//! - where the dry run fails, the real run fails in the same way, at the
//!   same reply;
//! - where the dry run succeeds and has used up the replies, the real run
//!   asks to start a browser.
//! A dry run itself never asks to start a browser: that is part of the
//! contract of every function that opens one.

use crate::browser::Browser;
use crate::desktop_entry::EntryView;
use crate::error::Error;
use crate::host::asks_to_start;
use crate::host::Environment;
use crate::host::Reply;
use crate::host::Turn;
use crate::launch::trying;
use crate::options::BrowserOptions;
use crate::target::Target;
use crate::unix::attempt;
use crate::unix::by_desktop;
use crate::unix::by_templates;
use crate::unix::by_wsl;
use crate::unix::by_xdg;
use crate::unix::chain;
use crate::unix::opening;
use crate::unix::searching;
use crate::unix::trying_each;
use crate::unix::using_config;
use crate::unix::using_entry;
use crate::unix::OpenerView;
use crate::unix::Strategy;
use vstd::prelude::*;

verus! {

/// Whether `dry` asks for a dry run and `live` does not.
pub open spec fn dry_and_live(dry: &BrowserOptions, live: &BrowserOptions) -> bool {
    dry.dry_run && !live.dry_run
}

/// Whether the outcome `d` of a dry run says what the real run comes to,
/// `r`, where both were given `len` replies.
pub open spec fn foretells(
    d: Turn<Result<(), Error>>,
    r: Turn<Result<(), Error>>,
    len: nat,
) -> bool {
    match d {
        Turn::Ask(_) => r == d,
        Turn::Done(Err(_), _) => r == d,
        Turn::Done(Ok(_), used) => used >= len ==> asks_to_start(r),
    }
}

proof fn lemma_trying(
    name: Seq<u8>,
    args: Seq<Seq<u8>>,
    dry: &BrowserOptions,
    live: &BrowserOptions,
    env: &Environment,
    replies: Seq<Reply>,
    at: nat,
)
    requires
        dry_and_live(dry, live),
    ensures
        foretells(
            trying(name, args, dry, env, replies, at),
            trying(name, args, live, env, replies, at),
            replies.len(),
        ),
{
}

proof fn lemma_trying_each(
    list: Seq<OpenerView>,
    dry: &BrowserOptions,
    live: &BrowserOptions,
    env: &Environment,
    replies: Seq<Reply>,
    at: nat,
)
    requires
        dry_and_live(dry, live),
    ensures
        foretells(
            trying_each(list, dry, env, replies, at),
            trying_each(list, live, env, replies, at),
            replies.len(),
        ),
    decreases list.len(),
{
    if list.len() > 0 {
        lemma_trying(list[0].name, list[0].args, dry, live, env, replies, at);
        match trying(list[0].name, list[0].args, dry, env, replies, at) {
            Turn::Done(Err(_), next) => {
                if list.len() > 1 {
                    lemma_trying_each(list.skip(1), dry, live, env, replies, next);
                }
            },
            _ => {},
        }
    }
}

proof fn lemma_by_templates(
    templates: Seq<Seq<u8>>,
    url: Seq<u8>,
    dry: &BrowserOptions,
    live: &BrowserOptions,
    env: &Environment,
    replies: Seq<Reply>,
    at: nat,
)
    requires
        dry_and_live(dry, live),
    ensures
        foretells(
            by_templates(templates, url, dry, env, replies, at),
            by_templates(templates, url, live, env, replies, at),
            replies.len(),
        ),
    decreases templates.len(),
{
    if templates.len() == 0 {
    } else if crate::text::words(templates[0]).len() == 0 {
        lemma_by_templates(templates.skip(1), url, dry, live, env, replies, at);
    } else {
        let line = crate::template::command_line(templates[0], url);
        lemma_trying(line[0], line.skip(1), dry, live, env, replies, at);
        match trying(line[0], line.skip(1), dry, env, replies, at) {
            Turn::Done(Err(_), next) => {
                lemma_by_templates(templates.skip(1), url, dry, live, env, replies, next);
            },
            _ => {},
        }
    }
}

proof fn lemma_using_entry(
    entry: EntryView,
    url: Seq<u8>,
    dry: &BrowserOptions,
    live: &BrowserOptions,
    env: &Environment,
    replies: Seq<Reply>,
    at: nat,
)
    requires
        dry_and_live(dry, live),
    ensures
        foretells(
            using_entry(entry, url, dry, env, replies, at),
            using_entry(entry, url, live, env, replies, at),
            replies.len(),
        ),
{
}

proof fn lemma_using_config(
    path: Seq<u8>,
    url: Seq<u8>,
    dry: &BrowserOptions,
    live: &BrowserOptions,
    env: &Environment,
    replies: Seq<Reply>,
    at: nat,
)
    requires
        dry_and_live(dry, live),
    ensures
        foretells(
            using_config(path, url, dry, env, replies, at),
            using_config(path, url, live, env, replies, at),
            replies.len(),
        ),
{
    if at < replies.len() {
        match replies[at as int].output() {
            Some(contents) => {
                lemma_using_entry(
                    crate::desktop_entry::entry_of(contents),
                    url,
                    dry,
                    live,
                    env,
                    replies,
                    at + 1,
                );
            },
            None => {},
        }
    }
}

proof fn lemma_searching(
    dirs: Seq<Seq<u8>>,
    name: Seq<u8>,
    found: bool,
    url: Seq<u8>,
    dry: &BrowserOptions,
    live: &BrowserOptions,
    env: &Environment,
    replies: Seq<Reply>,
    at: nat,
)
    requires
        dry_and_live(dry, live),
    ensures
        foretells(
            searching(dirs, name, found, url, dry, env, replies, at),
            searching(dirs, name, found, url, live, env, replies, at),
            replies.len(),
        ),
    decreases dirs.len(),
{
    if dirs.len() > 0 {
        match crate::unix::locating(dirs[0], name, replies, at) {
            Turn::Ask(_) => {},
            Turn::Done(None, next) => {
                lemma_searching(dirs.skip(1), name, found, url, dry, live, env, replies, next);
            },
            Turn::Done(Some(path), next) => {
                lemma_using_config(path, url, dry, live, env, replies, next);
                match using_config(path, url, dry, env, replies, next) {
                    Turn::Done(Err(e), last) => {
                        if e.kind == crate::error::ErrorKind::NotFound {
                            lemma_searching(
                                dirs.skip(1),
                                name,
                                true,
                                url,
                                dry,
                                live,
                                env,
                                replies,
                                last,
                            );
                        }
                    },
                    _ => {},
                }
            },
        }
    }
}

proof fn lemma_by_xdg(
    url: Seq<u8>,
    dry: &BrowserOptions,
    live: &BrowserOptions,
    env: &Environment,
    replies: Seq<Reply>,
    at: nat,
)
    requires
        dry_and_live(dry, live),
    ensures
        foretells(
            by_xdg(url, dry, env, replies, at),
            by_xdg(url, live, env, replies, at),
            replies.len(),
        ),
{
    match crate::unix::asking_xdg_settings(env, replies, at) {
        Turn::Done(Ok(name), next) => {
            lemma_searching(
                crate::unix::xdg_dirs(env),
                name,
                false,
                url,
                dry,
                live,
                env,
                replies,
                next,
            );
        },
        _ => {},
    }
}

proof fn lemma_by_wsl(
    target: &Target,
    dry: &BrowserOptions,
    live: &BrowserOptions,
    env: &Environment,
    replies: Seq<Reply>,
    at: nat,
)
    requires
        dry_and_live(dry, live),
    ensures
        foretells(
            by_wsl(target, dry, env, replies, at),
            by_wsl(target, live, env, replies, at),
            replies.len(),
        ),
{
    if target.web() {
        lemma_trying_each(crate::unix::wsl_openers(target.url@), dry, live, env, replies, at);
    }
}

proof fn lemma_by_desktop(
    target: &Target,
    dry: &BrowserOptions,
    live: &BrowserOptions,
    env: &Environment,
    replies: Seq<Reply>,
    at: nat,
)
    requires
        dry_and_live(dry, live),
    ensures
        foretells(
            by_desktop(target, dry, env, replies, at),
            by_desktop(target, live, env, replies, at),
            replies.len(),
        ),
{
    lemma_by_wsl(target, dry, live, env, replies, at);
    lemma_trying_each(
        crate::unix::openers(crate::unix::desktop_of(env), target.url@),
        dry,
        live,
        env,
        replies,
        at,
    );
}

proof fn lemma_attempt(
    strategy: Strategy,
    target: &Target,
    dry: &BrowserOptions,
    live: &BrowserOptions,
    env: &Environment,
    replies: Seq<Reply>,
    at: nat,
)
    requires
        dry_and_live(dry, live),
    ensures
        foretells(
            attempt(strategy, target, dry, env, replies, at),
            attempt(strategy, target, live, env, replies, at),
            replies.len(),
        ),
{
    match strategy {
        Strategy::BrowserEnv => {
            lemma_by_templates(
                crate::unix::browser_templates(env),
                target.url@,
                dry,
                live,
                env,
                replies,
                at,
            );
        },
        Strategy::PlatformOpen => {},
        Strategy::Xdg => {
            lemma_by_xdg(target.url@, dry, live, env, replies, at);
        },
        Strategy::Desktop => {
            lemma_by_desktop(target, dry, live, env, replies, at);
        },
        Strategy::Generic => {},
    }
}

proof fn lemma_chain(
    strategies: Seq<Strategy>,
    target: &Target,
    dry: &BrowserOptions,
    live: &BrowserOptions,
    env: &Environment,
    replies: Seq<Reply>,
    at: nat,
)
    requires
        dry_and_live(dry, live),
    ensures
        foretells(
            chain(strategies, target, dry, env, replies, at),
            chain(strategies, target, live, env, replies, at),
            replies.len(),
        ),
    decreases strategies.len(),
{
    if strategies.len() > 0 {
        lemma_attempt(strategies[0], target, dry, live, env, replies, at);
        match attempt(strategies[0], target, dry, env, replies, at) {
            Turn::Done(Err(_), next) => {
                lemma_chain(strategies.skip(1), target, dry, live, env, replies, next);
            },
            _ => {},
        }
    }
}

/// A dry run returns success exactly where the real run would find a
/// browser to start: given the same replies, the real run asks and fails
/// as the dry run does, and where the dry run succeeds on the last reply,
/// the real run asks to start a browser.
pub proof fn lemma_dry_run_foretells(
    browser: Browser,
    target: &Target,
    dry: &BrowserOptions,
    live: &BrowserOptions,
    env: &Environment,
    replies: Seq<Reply>,
)
    requires
        dry_and_live(dry, live),
    ensures
        foretells(
            opening(browser, target, dry, env, replies, 0),
            opening(browser, target, live, env, replies, 0),
            replies.len(),
        ),
{
    lemma_chain(crate::unix::default_strategies(), target, dry, live, env, replies, 0);
}

} // verus!
