//! Finding a command on the search path and starting it.
//!
//! No shell is involved at any point: a command is a program and a list of
//! arguments, and no byte of an argument is ever interpreted.

use crate::error::not_found;
use crate::error::other;
use crate::error::Error;
use crate::error::ErrorKind;
use crate::host::asks_to_start;
use crate::host::value;
use crate::host::CandidateCommand;
use crate::host::CommandView;
use crate::host::Environment;
use crate::host::Host;
use crate::host::Model;
use crate::host::Reply;
use crate::host::Request;
use crate::host::RequestView;
use crate::host::Step;
use crate::host::Turn;
use crate::options::BrowserOptions;
use crate::text::basename;
use crate::text::contains_byte;
use crate::text::copy;
use crate::text::copy_all;
use crate::text::file_name;
use crate::text::is;
use crate::text::join;
use crate::text::joined;
use crate::text::lit;
use crate::text::pieces;
use crate::text::split;
use crate::text::texts;
use crate::text::COLON;
use crate::text::SLASH;
use vstd::prelude::*;

verus! {

/// Whether the program at `path` is one of the known browsers that run in a
/// terminal: `lynx`, `links`, `links2`, `elinks`, `w3m`, `eww`, `netrik`,
/// `retawq`, `curl`.
pub open spec fn text_browser(path: Seq<u8>) -> bool {
    let name = basename(path);
    name == lit("lynx") || name == lit("links") || name == lit("links2") || name == lit("elinks")
        || name == lit("w3m") || name == lit("eww") || name == lit("netrik") || name == lit(
        "retawq",
    ) || name == lit("curl")
}

/// Returns true if specified command refers to a known list of text browsers.
pub fn is_text_browser(path: &[u8]) -> (r: bool)
    ensures
        r == text_browser(path@),
{
    let name = file_name(path);
    let n = name.as_slice();
    is(n, "lynx") || is(n, "links") || is(n, "links2") || is(n, "elinks") || is(n, "w3m") || is(
        n,
        "eww",
    ) || is(n, "netrik") || is(n, "retawq") || is(n, "curl")
}

/// The paths at which the command `name` is looked for, in order.
///
/// A name that holds a path separator stands for itself and the search path
/// plays no part. Any other name is looked for under each entry of the
/// search path, in the order of the entries.
pub open spec fn candidates(name: Seq<u8>, path: Option<Seq<u8>>) -> Seq<Seq<u8>> {
    if name.contains(SLASH) {
        seq![name]
    } else {
        match path {
            None => seq![],
            Some(p) => Seq::new(pieces(p, COLON).len(), |i: int| joined(pieces(p, COLON)[i], name)),
        }
    }
}

/// The paths at which the command `name` is looked for, in order.
pub fn probe_candidates(name: &[u8], env: &Environment) -> (r: Vec<Vec<u8>>)
    ensures
        texts(r@) == candidates(name@, value(env.path)),
{
    let mut out: Vec<Vec<u8>> = Vec::new();
    if contains_byte(name, SLASH) {
        out.push(copy(name));
        assert(texts(out@) == seq![name@]);
        return out;
    }
    match &env.path {
        None => {
            assert(texts(out@) == Seq::<Seq<u8>>::empty());
            out
        },
        Some(p) => {
            let entries = split(p.as_slice(), COLON);
            let mut i: usize = 0;
            while i < entries.len()
                invariant
                    i <= entries@.len(),
                    texts(entries@) == pieces(p@, COLON),
                    out@.len() == i,
                    forall|k: int|
                        0 <= k < i ==> #[trigger] out@[k]@ == joined(pieces(p@, COLON)[k], name@),
                decreases entries@.len() - i,
            {
                assert(texts(entries@)[i as int] == entries@[i as int]@);
                out.push(join(entries[i].as_slice(), name));
                i += 1;
            }
            assert(texts(out@) == candidates(name@, value(env.path)));
            out
        },
    }
}

/// The failure that a command which is nowhere to be found ends in.
pub open spec fn command_not_found() -> Error {
    not_found("command not found")
}

/// Looking for the first of `paths` that is an executable file.
///
/// The paths are asked about one by one, in order, each with one `Probe`
/// request; the first that the host confirms is the result, and none after
/// it is asked about.
pub open spec fn probing(paths: Seq<Seq<u8>>, replies: Seq<Reply>, at: nat) -> Turn<
    Result<Seq<u8>, Error>,
>
    decreases paths.len(),
{
    if paths.len() == 0 {
        Turn::Done(Err(command_not_found()), at)
    } else if at >= replies.len() {
        Turn::Ask(RequestView::Probe { path: paths[0] })
    } else if replies[at as int].ok() {
        Turn::Done(Ok(paths[0]), at + 1)
    } else {
        probing(paths.skip(1), replies, at + 1)
    }
}

/// What `probing` comes to, said at once: the result is the first path that
/// the host confirms, after exactly as many replies as paths were asked
/// about; with every path denied there is no result; and where the replies
/// run out, the path after the last one denied is asked about next.
pub proof fn lemma_probing_first_match(paths: Seq<Seq<u8>>, replies: Seq<Reply>, at: nat)
    requires
        at <= replies.len(),
    ensures
        match probing(paths, replies, at) {
            Turn::Done(Ok(found), next) => {
                &&& at < next <= at + paths.len()
                &&& next <= replies.len()
                &&& found == paths[next - at - 1]
                &&& replies[next - 1].ok()
                &&& forall|k: int| at <= k < next - 1 ==> !(#[trigger] replies[k]).ok()
            },
            Turn::Done(Err(e), next) => {
                &&& e == command_not_found()
                &&& next == at + paths.len()
                &&& next <= replies.len() || paths.len() == 0
                &&& forall|k: int| at <= k < next ==> !(#[trigger] replies[k]).ok()
            },
            Turn::Ask(request) => {
                &&& at <= replies.len() < at + paths.len()
                &&& request == (RequestView::Probe { path: paths[replies.len() - at] })
                &&& forall|k: int| at <= k < replies.len() ==> !(#[trigger] replies[k]).ok()
            },
        },
    decreases paths.len(),
{
    if paths.len() == 0 {
    } else if at >= replies.len() {
    } else if replies[at as int].ok() {
    } else {
        let rest = paths.skip(1);
        lemma_probing_first_match(rest, replies, at + 1);
        match probing(rest, replies, at + 1) {
            Turn::Done(Ok(found), next) => {
                assert(rest[next - (at + 1) - 1] == paths[next - at - 1]);
            },
            Turn::Done(Err(e), next) => {},
            Turn::Ask(request) => {
                assert(rest[replies.len() - (at + 1)] == paths[replies.len() - at]);
            },
        }
    }
}

/// Looks for the command `name`: under each entry of the search path in
/// turn, or at `name` itself if it holds a path separator.
pub fn for_matching_path(name: &[u8], host: &Host, at: usize) -> (r: Step<Result<Vec<u8>, Error>>)
    ensures
        r@ == probing(candidates(name@, value(host.env.path)), host.replies@, at as nat),
        !asks_to_start(r@),
{
    let paths = probe_candidates(name, &host.env);
    let ghost all = texts(paths@);
    let mut i: usize = 0;
    let mut pos: usize = at;
    assert(all.skip(0) == all);
    while i < paths.len()
        invariant
            i <= paths@.len(),
            all == texts(paths@),
            all == candidates(name@, value(host.env.path)),
            probing(all, host.replies@, at as nat) == probing(
                all.skip(i as int),
                host.replies@,
                pos as nat,
            ),
        decreases paths@.len() - i,
    {
        assert(all.skip(i as int).len() > 0);
        assert(all.skip(i as int)[0] == paths@[i as int]@);
        assert(all.skip(i as int).skip(1) == all.skip(i + 1));
        match host.reply(pos) {
            None => {
                return Step::Ask(Request::Probe { path: copy(paths[i].as_slice()) });
            },
            Some(reply) => {
                if reply.is_ok() {
                    return Step::Done(Ok(copy(paths[i].as_slice())), pos + 1);
                }
                pos += 1;
            },
        }
        i += 1;
    }
    Step::Done(Err(Error::new(ErrorKind::NotFound, "command not found")), pos)
}

/// What a reply to a `Launch` request means.
pub open spec fn launch_result(reply: Reply) -> Result<(), Error> {
    match reply {
        Reply::Done { .. } => Ok(()),
        Reply::Status { code } => if code == 0 {
            Ok(())
        } else {
            Err(other("command present but exited unsuccessfully"))
        },
        Reply::Failed { kind } => Err(Error { kind, message: "command could not be started" }),
    }
}

/// The request to start `command`: in the background, the process is let go
/// and its output discarded if the options say so; in the foreground, it is
/// waited for and keeps the terminal.
pub open spec fn launch_request(
    command: CommandView,
    background: bool,
    options: &BrowserOptions,
) -> RequestView {
    RequestView::Launch {
        command,
        wait: !background,
        quiet: background && options.suppress_output,
    }
}

/// Starting a command. On a dry run nothing is started and nothing asked:
/// that the program exists has been seen to already.
pub open spec fn running(
    command: CommandView,
    background: bool,
    options: &BrowserOptions,
    replies: Seq<Reply>,
    at: nat,
) -> Turn<Result<(), Error>> {
    if options.dry_run {
        Turn::Done(Ok(()), at)
    } else if at >= replies.len() {
        Turn::Ask(launch_request(command, background, options))
    } else {
        Turn::Done(launch_result(replies[at as int]), at + 1)
    }
}

/// What a reply to a `Launch` request means.
pub fn read_launch_reply(reply: &Reply) -> (r: Result<(), Error>)
    ensures
        r == launch_result(*reply),
{
    match reply {
        Reply::Done { .. } => Ok(()),
        Reply::Status { code } => if *code == 0 {
            Ok(())
        } else {
            Err(Error::new(ErrorKind::Other, "command present but exited unsuccessfully"))
        },
        Reply::Failed { kind } => Err(Error::new(*kind, "command could not be started")),
    }
}

/// Run the specified command in foreground/background.
pub fn run_command(
    command: CandidateCommand,
    background: bool,
    options: &BrowserOptions,
    host: &Host,
    at: usize,
) -> (r: Step<Result<(), Error>>)
    ensures
        r@ == running(command@, background, options, host.replies@, at as nat),
        options.dry_run ==> !asks_to_start(r@),
{
    if options.dry_run {
        return Step::Done(Ok(()), at);
    }
    match host.reply(at) {
        None => Step::Ask(
            Request::Launch {
                command,
                wait: !background,
                quiet: background && options.suppress_output,
            },
        ),
        Some(reply) => Step::Done(read_launch_reply(reply), at + 1),
    }
}

/// Looking for the command `name` and starting it with `args`: in the
/// foreground if it is a text browser, else in the background.
pub open spec fn trying(
    name: Seq<u8>,
    args: Seq<Seq<u8>>,
    options: &BrowserOptions,
    env: &Environment,
    replies: Seq<Reply>,
    at: nat,
) -> Turn<Result<(), Error>> {
    match probing(candidates(name, value(env.path)), replies, at) {
        Turn::Ask(request) => Turn::Ask(request),
        Turn::Done(Err(e), next) => Turn::Done(Err(e), next),
        Turn::Done(Ok(program), next) => running(
            CommandView { program, args, dir: None },
            !text_browser(program),
            options,
            replies,
            next,
        ),
    }
}

/// Looks for the command `name` and starts it with `args`.
pub fn try_browser(
    name: &[u8],
    args: &Vec<Vec<u8>>,
    options: &BrowserOptions,
    host: &Host,
    at: usize,
) -> (r: Step<Result<(), Error>>)
    ensures
        r@ == trying(name@, texts(args@), options, &host.env, host.replies@, at as nat),
        options.dry_run ==> !asks_to_start(r@),
{
    match for_matching_path(name, host, at) {
        Step::Ask(request) => Step::Ask(request),
        Step::Done(Err(e), next) => Step::Done(Err(e), next),
        Step::Done(Ok(program), next) => {
            let background = !is_text_browser(program.as_slice());
            run_command(
                CandidateCommand { program, args: copy_all(args), dir: None },
                background,
                options,
                host,
                next,
            )
        },
    }
}

} // verus!
