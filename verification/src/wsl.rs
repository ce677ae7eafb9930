//! The bridge from the Windows Subsystem for Linux to Windows.
//!
//! A local file is opened by the browser that Windows has registered for
//! `http`, started directly as a Windows program. For that the registered
//! command line is asked from Windows, its program is mapped to the path
//! under which WSL sees it, and the file is named in a form that Windows
//! understands: below the drive `C:` where it lies there, else through the
//! network share `\\wsl$` of the distribution.

use crate::error::not_found;
use crate::error::other;
use crate::error::Error;
use crate::error::ErrorKind;
use crate::host::value;
use crate::host::CandidateCommand;
use crate::host::CommandView;
use crate::host::Environment;
use crate::host::Host;
use crate::host::Model;
use crate::host::Reply;
use crate::host::Request;
use crate::host::RequestView;
use crate::host::Script;
use crate::host::Step;
use crate::host::Turn;
use crate::target::Target;
use crate::text::concat;
use crate::text::copy;
use crate::text::ends_with;
use crate::text::find;
use crate::text::has_part;
use crate::text::has_suffix;
use crate::text::is;
use crate::text::join;
use crate::text::joined;
use crate::text::lit;
use crate::text::lowered;
use crate::text::no_texts;
use crate::text::part;
use crate::text::pieces;
use crate::text::position;
use crate::text::push_bytes;
use crate::text::push_text;
use crate::text::replace;
use crate::text::replaced;
use crate::text::same;
use crate::text::split;
use crate::text::text;
use crate::text::texts;
use crate::text::to_ascii_lowercase;
use crate::text::trim;
use crate::text::trim_end_matches;
use crate::text::trimmed;
use crate::text::without_trailing;
use crate::text::BACKSLASH;
use crate::text::COLON;
use crate::text::DOT;
use crate::text::SLASH;
use crate::token::for_each_token;
use crate::token::tokens;
use vstd::prelude::*;

verus! {

/// Where Windows is, seen from inside WSL.
#[derive(Clone, Debug, PartialEq, Eq)]
pub struct WindowsConfig {
    /// The directory under which the drive `C:` is mounted.
    pub root: Vec<u8>,
    /// The path of `cmd.exe`.
    pub cmd_path: Vec<u8>,
    /// The path of `powershell.exe`, where there is one.
    pub powershell_path: Option<Vec<u8>>,
}

/// The contents of a [`WindowsConfig`].
pub struct WindowsConfigView {
    pub root: Seq<u8>,
    pub cmd_path: Seq<u8>,
    pub powershell_path: Option<Seq<u8>>,
}

impl View for WindowsConfig {
    type V = WindowsConfigView;

    open spec fn view(&self) -> WindowsConfigView {
        WindowsConfigView {
            root: self.root@,
            cmd_path: self.cmd_path@,
            powershell_path: value(self.powershell_path),
        }
    }
}

impl Model for WindowsConfig {
    type M = WindowsConfigView;

    open spec fn model(&self) -> WindowsConfigView {
        self@
    }
}

/// Whether an entry of the search path is the `system32` directory of
/// Windows, in any case of letters and with or without slashes at its end.
pub open spec fn system32(entry: Seq<u8>) -> bool {
    has_suffix(without_trailing(lowered(entry), SLASH), lit("/windows/system32"))
}

/// The position of the first `system32` directory among `entries`.
pub open spec fn first_system32(entries: Seq<Seq<u8>>) -> Option<int>
    decreases entries.len(),
{
    if entries.len() == 0 {
        None
    } else if system32(entries[0]) {
        Some(0)
    } else {
        match first_system32(entries.skip(1)) {
            Some(i) => Some(i + 1),
            None => None,
        }
    }
}

/// Whether an entry of the search path is the `system32` directory.
pub fn is_system32(entry: &[u8]) -> (r: bool)
    ensures
        r == system32(entry@),
{
    let low = to_ascii_lowercase(entry);
    let bare = trim_end_matches(low.as_slice(), SLASH);
    let suffix = text("/windows/system32");
    ends_with(bare.as_slice(), suffix.as_slice())
}

/// The position of the first `system32` directory among `entries`.
pub fn find_system32(entries: &Vec<Vec<u8>>) -> (r: Option<usize>)
    ensures
        match r {
            Some(i) => first_system32(texts(entries@)) == Some(i as int) && i < entries@.len(),
            None => first_system32(texts(entries@)) is None,
        },
{
    let ghost all = texts(entries@);
    let mut i: usize = entries.len();
    let mut found: Option<usize> = None;
    assert(all.skip(i as int).len() == 0);
    while i > 0
        invariant
            i <= entries@.len(),
            all == texts(entries@),
            match found {
                Some(k) => first_system32(all.skip(i as int)) == Some(k - i) && i <= k
                    < entries@.len(),
                None => first_system32(all.skip(i as int)) is None,
            },
        decreases i,
    {
        i -= 1;
        assert(all.skip(i as int).skip(1) == all.skip(i + 1));
        assert(all.skip(i as int)[0] == entries@[i as int]@);
        if is_system32(entries[i].as_slice()) {
            found = Some(i);
        }
    }
    assert(all.skip(0) == all);
    found
}

/// Whether a piece of a path counts as a component: it is neither empty nor
/// a single dot.
pub open spec fn counts(piece: Seq<u8>) -> bool {
    piece.len() != 0 && piece != seq![DOT]
}

/// The pieces that count, in order.
pub open spec fn counted(ps: Seq<Seq<u8>>) -> Seq<Seq<u8>>
    decreases ps.len(),
{
    if ps.len() == 0 {
        seq![]
    } else if counts(ps.last()) {
        counted(ps.drop_last()).push(ps.last())
    } else {
        counted(ps.drop_last())
    }
}

/// The components of a path: what stands between its slashes, without empty
/// pieces and single dots.
pub open spec fn components(path: Seq<u8>) -> Seq<Seq<u8>> {
    counted(pieces(path, SLASH))
}

/// Whether a path starts at the root of the file system.
pub open spec fn absolute(path: Seq<u8>) -> bool {
    path.len() > 0 && path[0] == SLASH
}

/// Whether `path` lies at or below `root`, component by component.
pub open spec fn path_under(path: Seq<u8>, root: Seq<u8>) -> bool {
    &&& absolute(path) == absolute(root)
    &&& components(root).len() <= components(path).len()
    &&& components(path).take(components(root).len() as int) == components(root)
}

/// Components put together again, with one slash between each two.
pub open spec fn glued(cs: Seq<Seq<u8>>) -> Seq<u8>
    decreases cs.len(),
{
    if cs.len() == 0 {
        seq![]
    } else if cs.len() == 1 {
        cs[0]
    } else {
        glued(cs.drop_last()) + seq![SLASH] + cs.last()
    }
}

/// What is left of `path` below `root`.
pub open spec fn below(path: Seq<u8>, root: Seq<u8>) -> Seq<u8> {
    glued(components(path).skip(components(root).len() as int))
}

/// The components of a path.
pub fn path_components(path: &[u8]) -> (r: Vec<Vec<u8>>)
    ensures
        texts(r@) == components(path@),
{
    let ps = split(path, SLASH);
    let mut out = no_texts();
    let mut i: usize = 0;
    assert(texts(ps@).take(0) == Seq::<Seq<u8>>::empty());
    while i < ps.len()
        invariant
            i <= ps@.len(),
            texts(ps@) == pieces(path@, SLASH),
            texts(out@) == counted(texts(ps@).take(i as int)),
        decreases ps@.len() - i,
    {
        proof {
            let upto = texts(ps@).take(i + 1);
            assert(upto.drop_last() == texts(ps@).take(i as int));
            assert(upto.last() == ps@[i as int]@);
        }
        let p = ps[i].as_slice();
        let dot = p.len() == 1 && p[0] == DOT;
        assert(dot == (p@ == seq![DOT])) by {
            if dot {
                assert(p@ == seq![DOT]);
            }
        }
        if p.len() != 0 && !dot {
            push_bytes(&mut out, copy(p));
        }
        i += 1;
    }
    assert(texts(ps@).take(i as int) == texts(ps@));
    out
}

/// If `path` lies at or below `root`, what is left of it below `root`.
pub fn strip_root(path: &[u8], root: &[u8]) -> (r: Option<Vec<u8>>)
    ensures
        match r {
            Some(rest) => path_under(path@, root@) && rest@ == below(path@, root@),
            None => !path_under(path@, root@),
        },
{
    let path_abs = path.len() > 0 && path[0] == SLASH;
    let root_abs = root.len() > 0 && root[0] == SLASH;
    if path_abs != root_abs {
        return None;
    }
    let pc = path_components(path);
    let rc = path_components(root);
    assert(texts(pc@).len() == pc@.len());
    assert(texts(rc@).len() == rc@.len());
    if rc.len() > pc.len() {
        return None;
    }
    let ghost pcs = components(path@);
    let ghost rcs = components(root@);
    let mut i: usize = 0;
    while i < rc.len()
        invariant
            i <= rc@.len() <= pc@.len(),
            texts(pc@) == pcs,
            texts(rc@) == rcs,
            pcs == components(path@),
            rcs == components(root@),
            absolute(path@) == absolute(root@),
            forall|k: int| 0 <= k < i ==> pcs[k] == rcs[k],
        decreases rc@.len() - i,
    {
        assert(texts(pc@)[i as int] == pc@[i as int]@);
        assert(texts(rc@)[i as int] == rc@[i as int]@);
        if !same(pc[i].as_slice(), rc[i].as_slice()) {
            assert(pcs.take(rcs.len() as int)[i as int] != rcs[i as int]);
            return None;
        }
        i += 1;
    }
    assert(pcs.take(rcs.len() as int) == rcs);
    let n = rc.len();
    let mut out: Vec<u8> = Vec::new();
    let mut j: usize = n;
    let ghost rest = pcs.skip(n as int);
    assert(rest.take(0) == Seq::<Seq<u8>>::empty());
    while j < pc.len()
        invariant
            n <= j <= pc@.len(),
            texts(pc@) == pcs,
            rest == pcs.skip(n as int),
            out@ == glued(rest.take(j - n)),
        decreases pc@.len() - j,
    {
        proof {
            let upto = rest.take(j - n + 1);
            assert(upto.drop_last() == rest.take(j - n));
            assert(upto.last() == pc@[j as int]@) by {
                assert(texts(pc@)[j as int] == pc@[j as int]@);
            }
            if j == n {
                assert(upto.len() == 1);
                assert(upto[0] == upto.last());
            }
        }
        if j > n {
            out.push(SLASH);
        }
        out.extend_from_slice(pc[j].as_slice());
        j += 1;
    }
    assert(rest.take(j - n) == rest);
    Some(out)
}

/// The failure of not finding Windows.
pub open spec fn no_windows() -> Error {
    not_found("invalid windows config")
}

/// Looking for `powershell.exe` under the entries of the search path that
/// lie below the Windows root; the last entry that holds one wins.
pub open spec fn finding_powershell(
    entries: Seq<Seq<u8>>,
    root: Seq<u8>,
    last: Option<Seq<u8>>,
    replies: Seq<Reply>,
    at: nat,
) -> Turn<Option<Seq<u8>>>
    decreases entries.len(),
{
    if entries.len() == 0 {
        Turn::Done(last, at)
    } else if path_under(entries[0], root) {
        let candidate = joined(entries[0], lit("powershell.exe"));
        if at >= replies.len() {
            Turn::Ask(RequestView::IsFile { path: candidate })
        } else {
            finding_powershell(
                entries.skip(1),
                root,
                if replies[at as int].ok() {
                    Some(candidate)
                } else {
                    last
                },
                replies,
                at + 1,
            )
        }
    } else {
        finding_powershell(entries.skip(1), root, last, replies, at)
    }
}

/// Finding Windows: the first `system32` directory on the search path gives
/// `cmd.exe` and, two levels up and made canonical by the host, the root.
pub open spec fn win_config(env: &Environment, replies: Seq<Reply>, at: nat) -> Turn<
    Result<WindowsConfigView, Error>,
> {
    match value(env.path) {
        None => Turn::Done(Err(no_windows()), at),
        Some(p) => {
            let entries = pieces(p, COLON);
            match first_system32(entries) {
                None => Turn::Done(Err(no_windows()), at),
                Some(i) => {
                    if at >= replies.len() {
                        Turn::Ask(
                            RequestView::Canonicalize { path: joined(entries[i], lit("../..")) },
                        )
                    } else {
                        match replies[at as int].output() {
                            None => Turn::Done(
                                Err(
                                    Error {
                                        kind: replies[at as int].failure(),
                                        message: "windows root not found",
                                    },
                                ),
                                at + 1,
                            ),
                            Some(root) => match finding_powershell(
                                entries,
                                root,
                                None,
                                replies,
                                at + 1,
                            ) {
                                Turn::Ask(request) => Turn::Ask(request),
                                Turn::Done(powershell_path, next) => Turn::Done(
                                    Ok(
                                        WindowsConfigView {
                                            root,
                                            cmd_path: joined(entries[i], lit("cmd.exe")),
                                            powershell_path,
                                        },
                                    ),
                                    next,
                                ),
                            },
                        }
                    }
                },
            }
        },
    }
}

/// Returns a [`WindowsConfig`] by iterating over the entries of the search
/// path.
pub fn get_wsl_win_config(host: &Host, at: usize) -> (r: Step<Result<WindowsConfig, Error>>)
    ensures
        r@ == win_config(&host.env, host.replies@, at as nat),
        !crate::host::asks_to_start(r@),
{
    let path = match &host.env.path {
        None => {
            return Step::Done(Err(Error::new(ErrorKind::NotFound, "invalid windows config")), at);
        },
        Some(p) => p,
    };
    let entries = split(path.as_slice(), COLON);
    let idx = match find_system32(&entries) {
        None => {
            return Step::Done(Err(Error::new(ErrorKind::NotFound, "invalid windows config")), at);
        },
        Some(i) => i,
    };
    let ghost all = texts(entries@);
    assert(all[idx as int] == entries@[idx as int]@);
    let dir = entries[idx].as_slice();
    let up = text("../..");
    let reply = match host.reply(at) {
        None => {
            return Step::Ask(Request::Canonicalize { path: join(dir, up.as_slice()) });
        },
        Some(reply) => reply,
    };
    let root = match reply.data() {
        None => {
            return Step::Done(Err(Error::new(reply.kind(), "windows root not found")), at + 1);
        },
        Some(output) => copy(output.as_slice()),
    };
    let exe = text("cmd.exe");
    let cmd_path = join(dir, exe.as_slice());
    let shell = text("powershell.exe");
    let mut powershell_path: Option<Vec<u8>> = None;
    let mut pos: usize = at + 1;
    let mut i: usize = 0;
    assert(all.skip(0) == all);
    let ghost goal = win_config(&host.env, host.replies@, at as nat);
    let ghost search = finding_powershell(all, root@, None, host.replies@, (at + 1) as nat);
    assert(goal == match search {
        Turn::Ask(request) => Turn::<Result<WindowsConfigView, Error>>::Ask(request),
        Turn::Done(found, next) => Turn::Done(
            Ok(WindowsConfigView { root: root@, cmd_path: cmd_path@, powershell_path: found }),
            next,
        ),
    });
    while i < entries.len()
        invariant
            i <= entries@.len(),
            all == texts(entries@),
            shell@ == lit("powershell.exe"),
            goal == win_config(&host.env, host.replies@, at as nat),
            search == finding_powershell(all, root@, None, host.replies@, (at + 1) as nat),
            goal == match search {
                Turn::Ask(request) => Turn::<Result<WindowsConfigView, Error>>::Ask(request),
                Turn::Done(found, next) => Turn::Done(
                    Ok(
                        WindowsConfigView {
                            root: root@,
                            cmd_path: cmd_path@,
                            powershell_path: found,
                        },
                    ),
                    next,
                ),
            },
            pos <= host.replies@.len() <= usize::MAX,
            finding_powershell(all, root@, None, host.replies@, (at + 1) as nat)
                == finding_powershell(
                all.skip(i as int),
                root@,
                value(powershell_path),
                host.replies@,
                pos as nat,
            ),
        decreases entries@.len() - i,
    {
        assert(all.skip(i as int).skip(1) == all.skip(i + 1));
        assert(all.skip(i as int)[0] == entries@[i as int]@);
        let entry = entries[i].as_slice();
        if strip_root(entry, root.as_slice()).is_some() {
            let candidate = join(entry, shell.as_slice());
            match host.reply(pos) {
                None => {
                    return Step::Ask(Request::IsFile { path: candidate });
                },
                Some(reply) => {
                    if reply.is_ok() {
                        powershell_path = Some(candidate);
                    }
                    pos += 1;
                },
            }
        }
        i += 1;
    }
    Step::Done(Ok(WindowsConfig { root, cmd_path, powershell_path }), pos)
}

/// The path under which WSL sees a file that Windows names on its drive
/// `C:`. No other drive is known.
pub open spec fn win2lin(root: Seq<u8>, path: Seq<u8>) -> Result<Seq<u8>, Error> {
    if path.len() > 3 && (path.take(3) == lit("C:\\") || path.take(3) == lit("c:\\")) {
        Ok(joined(root, replaced(path.skip(3), BACKSLASH, seq![SLASH])))
    } else {
        Err(not_found("invalid windows path"))
    }
}

/// Converts a windows path to a linux path.
pub fn wsl_path_win2lin(wc: &WindowsConfig, path: &[u8]) -> (r: Result<Vec<u8>, Error>)
    ensures
        r.model() == win2lin(wc.root@, path@),
{
    if path.len() > 3 {
        let prefix = part(path, 0, 3);
        if is(prefix.as_slice(), "C:\\") || is(prefix.as_slice(), "c:\\") {
            let slash: Vec<u8> = vec![SLASH];
            assert(slash@ == seq![SLASH]);
            let rest = part(path, 3, path.len());
            assert(rest@ == path@.skip(3));
            let unix = replace(rest.as_slice(), BACKSLASH, slash.as_slice());
            return Ok(join(wc.root.as_slice(), unix.as_slice()));
        }
    }
    Err(Error::new(ErrorKind::NotFound, "invalid windows path"))
}

/// The name under which Windows reaches a file on its own drive: whatever
/// of `path` lies below the root, after `C:\`, with backslashes.
pub open spec fn on_drive(root: Seq<u8>, path: Seq<u8>) -> Seq<u8> {
    replaced(lit("C:\\") + below(path, root), SLASH, seq![BACKSLASH])
}

/// The name under which Windows reaches a file of the distribution `distro`
/// over the network share: `\\wsl$\`, the distribution, and the path with
/// backslashes.
pub open spec fn on_share(distro: Seq<u8>, path: Seq<u8>) -> Seq<u8> {
    replaced(lit("\\\\wsl$\\") + distro + path, SLASH, seq![BACKSLASH])
}

/// The name under which Windows reaches a file of the distribution `distro`
/// over the network share.
pub fn share_path(distro: &[u8], path: &[u8]) -> (r: Vec<u8>)
    ensures
        r@ == on_share(distro@, path@),
{
    let mut whole = text("\\\\wsl$\\");
    whole.extend_from_slice(distro);
    whole.extend_from_slice(path);
    assert(whole@ == lit("\\\\wsl$\\") + distro@ + path@);
    let backslash: Vec<u8> = vec![BACKSLASH];
    assert(backslash@ == seq![BACKSLASH]);
    replace(whole.as_slice(), SLASH, backslash.as_slice())
}

/// The failure of not learning the name of the distribution.
pub open spec fn no_distro() -> Error {
    other("unable to determine wsl distro name")
}

/// The name of the distribution in what PowerShell prints as its location
/// in the root directory: what follows the first `::\\` and the seven bytes
/// after it, which name the share, without backslashes at the end and
/// without whitespace around it.
#[verifier::opaque]
pub open spec fn distro_in(output: Seq<u8>) -> Option<Seq<u8>> {
    let bare = without_trailing(output, BACKSLASH);
    if has_part(bare, lit("::\\\\")) && position(bare, lit("::\\\\")) + 9 <= bare.len() {
        Some(trimmed(bare.skip(position(bare, lit("::\\\\")) + 9)))
    } else {
        None
    }
}

/// Reads the name of the distribution out of what PowerShell printed.
pub fn parse_distro_name(output: &[u8]) -> (r: Option<Vec<u8>>)
    ensures
        value(r) == distro_in(output@),
{
    reveal(distro_in);
    let bare = trim_end_matches(output, BACKSLASH);
    let mark = text("::\\\\");
    match find(bare.as_slice(), mark.as_slice()) {
        None => None,
        Some(idx) => {
            assert(crate::text::occurs_at(bare@, mark@, idx as int));
            assert(has_part(bare@, mark@));
            let n = bare.len();
            if n < 9 || idx > n - 9 {
                None
            } else {
                let rest = part(bare.as_slice(), idx + 9, bare.len());
                assert(rest@ == bare@.skip(idx + 9));
                Some(trim(rest.as_slice()))
            }
        },
    }
}

/// The arguments that make PowerShell print its location.
pub open spec fn location_args() -> Seq<Seq<u8>> {
    seq![
        lit("-NoLogo"),
        lit("-NoProfile"),
        lit("-NonInteractive"),
        lit("-Command"),
        lit("$loc = Get-Location\nWrite-Output $loc.Path"),
    ]
}

/// The arguments that make PowerShell print its location.
pub fn location_arguments() -> (r: Vec<Vec<u8>>)
    ensures
        texts(r@) == location_args(),
{
    let mut args = no_texts();
    push_text(&mut args, "-NoLogo");
    push_text(&mut args, "-NoProfile");
    push_text(&mut args, "-NonInteractive");
    push_text(&mut args, "-Command");
    push_text(&mut args, "$loc = Get-Location\nWrite-Output $loc.Path");
    assert(texts(args@) == location_args());
    args
}

/// Learning the name of the distribution: from the environment, or else
/// from the location that PowerShell reports when run in the root
/// directory.
pub open spec fn distro_name(
    wc: WindowsConfigView,
    env: &Environment,
    replies: Seq<Reply>,
    at: nat,
) -> Turn<Result<Seq<u8>, Error>> {
    match value(env.wsl_distro_name) {
        Some(name) => Turn::Done(Ok(name), at),
        None => match wc.powershell_path {
            None => Turn::Done(Err(no_distro()), at),
            Some(program) => {
                if at >= replies.len() {
                    Turn::Ask(
                        RequestView::Capture {
                            command: CommandView {
                                program,
                                args: location_args(),
                                dir: Some(seq![SLASH]),
                            },
                            script: Script::Nothing,
                        },
                    )
                } else {
                    match replies[at as int].output() {
                        None => Turn::Done(
                            Err(
                                Error {
                                    kind: replies[at as int].failure(),
                                    message: "powershell.exe could not be run",
                                },
                            ),
                            at + 1,
                        ),
                        Some(output) => match distro_in(output) {
                            Some(name) => Turn::Done(Ok(name), at + 1),
                            None => Turn::Done(Err(no_distro()), at + 1),
                        },
                    }
                }
            },
        },
    }
}

/// Gets the WSL distro name.
pub fn get_wsl_distro_name(wc: &WindowsConfig, host: &Host, at: usize) -> (r: Step<
    Result<Vec<u8>, Error>,
>)
    ensures
        r@ == distro_name(wc@, &host.env, host.replies@, at as nat),
        !crate::host::asks_to_start(r@),
{
    if let Some(name) = &host.env.wsl_distro_name {
        return Step::Done(Ok(copy(name.as_slice())), at);
    }
    let program = match &wc.powershell_path {
        None => {
            return Step::Done(
                Err(Error::new(ErrorKind::Other, "unable to determine wsl distro name")),
                at,
            );
        },
        Some(p) => copy(p.as_slice()),
    };
    let reply = match host.reply(at) {
        None => {
            let args = location_arguments();
            let dir: Vec<u8> = vec![SLASH];
            assert(dir@ == seq![SLASH]);
            return Step::Ask(
                Request::Capture {
                    command: CandidateCommand { program, args, dir: Some(dir) },
                    script: Script::Nothing,
                },
            );
        },
        Some(reply) => reply,
    };
    match reply.data() {
        None => Step::Done(Err(Error::new(reply.kind(), "powershell.exe could not be run")), at + 1),
        Some(output) => match parse_distro_name(output.as_slice()) {
            Some(name) => Step::Done(Ok(name), at + 1),
            None => Step::Done(
                Err(Error::new(ErrorKind::Other, "unable to determine wsl distro name")),
                at + 1,
            ),
        },
    }
}

/// Naming a file of this machine for Windows: on the drive if it lies below
/// the Windows root, else over the network share of the distribution.
pub open spec fn lin2win(
    wc: WindowsConfigView,
    path: Seq<u8>,
    env: &Environment,
    replies: Seq<Reply>,
    at: nat,
) -> Turn<Result<Seq<u8>, Error>> {
    if path_under(path, wc.root) {
        Turn::Done(Ok(on_drive(wc.root, path)), at)
    } else {
        match distro_name(wc, env, replies, at) {
            Turn::Ask(request) => Turn::Ask(request),
            Turn::Done(Err(e), next) => Turn::Done(Err(e), next),
            Turn::Done(Ok(name), next) => Turn::Done(Ok(on_share(name, path)), next),
        }
    }
}

/// Converts a linux path to windows.
pub fn wsl_path_lin2win(wc: &WindowsConfig, path: &[u8], host: &Host, at: usize) -> (r: Step<
    Result<Vec<u8>, Error>,
>)
    ensures
        r@ == lin2win(wc@, path@, &host.env, host.replies@, at as nat),
        !crate::host::asks_to_start(r@),
{
    match strip_root(path, wc.root.as_slice()) {
        Some(rest) => {
            let mut whole = text("C:\\");
            whole.extend_from_slice(rest.as_slice());
            assert(whole@ == lit("C:\\") + rest@);
            let backslash: Vec<u8> = vec![BACKSLASH];
            assert(backslash@ == seq![BACKSLASH]);
            Step::Done(Ok(replace(whole.as_slice(), SLASH, backslash.as_slice())), at)
        },
        None => match get_wsl_distro_name(wc, host, at) {
            Step::Ask(request) => Step::Ask(request),
            Step::Done(Err(e), next) => Step::Done(Err(e), next),
            Step::Done(Ok(name), next) => Step::Done(
                Ok(share_path(name.as_slice(), path)),
                next,
            ),
        },
    }
}

/// Naming the target for a Windows program: a local file by its Windows
/// name, a file on another host through the share, anything else by its
/// URL.
pub open spec fn file_name_for_windows(
    wc: WindowsConfigView,
    target: &Target,
    env: &Environment,
    replies: Seq<Reply>,
    at: nat,
) -> Turn<Result<Seq<u8>, Error>> {
    if target.scheme@ == lit("file") {
        if !target.has_host {
            match value(target.file_path) {
                None => Turn::Done(Err(not_found("invalid path")), at),
                Some(path) => lin2win(wc, path, env, replies, at),
            }
        } else {
            Turn::Done(
                Ok(lit("\\\\wsl$") + replaced(target.path@, SLASH, seq![BACKSLASH])),
                at,
            )
        }
    } else {
        Turn::Done(Ok(target.url@), at)
    }
}

/// Names the target for a Windows program.
pub fn wsl_get_filepath_from_url(wc: &WindowsConfig, target: &Target, host: &Host, at: usize) -> (r:
    Step<Result<Vec<u8>, Error>>)
    ensures
        r@ == file_name_for_windows(wc@, target, &host.env, host.replies@, at as nat),
        !crate::host::asks_to_start(r@),
{
    if is(target.scheme.as_slice(), "file") {
        if !target.has_host {
            match &target.file_path {
                None => Step::Done(Err(Error::new(ErrorKind::NotFound, "invalid path")), at),
                Some(path) => wsl_path_lin2win(wc, path.as_slice(), host, at),
            }
        } else {
            let backslash: Vec<u8> = vec![BACKSLASH];
            assert(backslash@ == seq![BACKSLASH]);
            let path = replace(target.path.as_slice(), SLASH, backslash.as_slice());
            let share = text("\\\\wsl$");
            Step::Done(Ok(concat(share.as_slice(), path.as_slice())), at)
        }
    } else {
        Step::Done(Ok(copy(target.url.as_slice())), at)
    }
}

/// Whether a token of a registered command line stands for the file: `%0`
/// or `%1`.
pub open spec fn is_file_code(token: Seq<u8>) -> bool {
    token == lit("%0") || token == lit("%1")
}

/// The tokens `ts` with each file code replaced by `file`.
pub open spec fn with_file(ts: Seq<Seq<u8>>, file: Seq<u8>) -> Seq<Seq<u8>> {
    Seq::new(
        ts.len(),
        |i: int|
            if is_file_code(ts[i]) {
                file
            } else {
                ts[i]
            },
    )
}

/// The tokens of a registered command line, each file code replaced by
/// `file`.
pub fn fill_file_codes(cmdline: &[u8], file: &[u8]) -> (r: Vec<Vec<u8>>)
    ensures
        texts(r@) == with_file(tokens(cmdline@), file@),
{
    let ts = for_each_token(cmdline);
    let mut out: Vec<Vec<u8>> = Vec::new();
    let mut i: usize = 0;
    while i < ts.len()
        invariant
            i <= ts@.len(),
            texts(ts@) == tokens(cmdline@),
            out@.len() == i,
            forall|k: int|
                0 <= k < i ==> #[trigger] out@[k]@ == with_file(tokens(cmdline@), file@)[k],
        decreases ts@.len() - i,
    {
        let t = ts[i].as_slice();
        assert(texts(ts@)[i as int] == t@);
        if is(t, "%0") || is(t, "%1") {
            out.push(copy(file));
        } else {
            out.push(copy(t));
        }
        i += 1;
    }
    assert(texts(out@) == with_file(tokens(cmdline@), file@));
    out
}

/// The command that a registered command line stands for, once the name
/// `file` of the target is known: its first token is the program, mapped to
/// its path under WSL, and the others are the arguments.
pub open spec fn windows_command(root: Seq<u8>, cmdline: Seq<u8>, file: Seq<u8>) -> Result<
    CommandView,
    Error,
> {
    let ts = with_file(tokens(cmdline), file);
    if ts.len() == 0 {
        Err(not_found("invalid command"))
    } else {
        match win2lin(root, ts[0]) {
            Err(e) => Err(e),
            Ok(program) => Ok(CommandView { program, args: ts.skip(1), dir: None }),
        }
    }
}

/// Builds the command that a registered command line stands for.
pub fn build_windows_command(wc: &WindowsConfig, cmdline: &[u8], file: &[u8]) -> (r: Result<
    CandidateCommand,
    Error,
>)
    ensures
        r.model() == windows_command(wc.root@, cmdline@, file@),
{
    let ts = fill_file_codes(cmdline, file);
    if ts.len() == 0 {
        return Err(Error::new(ErrorKind::NotFound, "invalid command"));
    }
    assert(texts(ts@)[0] == ts@[0]@);
    match wsl_path_win2lin(wc, ts[0].as_slice()) {
        Err(e) => Err(e),
        Ok(program) => {
            let mut args: Vec<Vec<u8>> = Vec::new();
            let mut i: usize = 1;
            while i < ts.len()
                invariant
                    1 <= i <= ts@.len(),
                    args@.len() == i - 1,
                    forall|k: int| 0 <= k < i - 1 ==> #[trigger] args@[k]@ == ts@[k + 1]@,
                decreases ts@.len() - i,
            {
                args.push(copy(ts[i].as_slice()));
                i += 1;
            }
            assert(texts(args@) == texts(ts@).skip(1));
            Ok(CandidateCommand { program, args, dir: None })
        },
    }
}

/// Given the configured command line in the registry, and the target, the
/// command to invoke.
pub open spec fn wsl_cmdline(
    wc: WindowsConfigView,
    cmdline: Seq<u8>,
    target: &Target,
    env: &Environment,
    replies: Seq<Reply>,
    at: nat,
) -> Turn<Result<CommandView, Error>> {
    match file_name_for_windows(wc, target, env, replies, at) {
        Turn::Ask(request) => Turn::Ask(request),
        Turn::Done(Err(e), next) => Turn::Done(Err(e), next),
        Turn::Done(Ok(file), next) => Turn::Done(windows_command(wc.root, cmdline, file), next),
    }
}

/// Given the configured command line `cmdline` in registry, and the given
/// target, return the appropriate command to invoke.
pub fn parse_wsl_cmdline(
    wc: &WindowsConfig,
    cmdline: &[u8],
    target: &Target,
    host: &Host,
    at: usize,
) -> (r: Step<Result<CandidateCommand, Error>>)
    ensures
        r@ == wsl_cmdline(wc@, cmdline@, target, &host.env, host.replies@, at as nat),
        !crate::host::asks_to_start(r@),
{
    match wsl_get_filepath_from_url(wc, target, host, at) {
        Step::Ask(request) => Step::Ask(request),
        Step::Done(Err(e), next) => Step::Done(Err(e), next),
        Step::Done(Ok(file), next) => Step::Done(
            build_windows_command(wc, cmdline, file.as_slice()),
            next,
        ),
    }
}

/// The arguments that make PowerShell run a script from its input.
pub open spec fn script_args() -> Seq<Seq<u8>> {
    seq![
        lit("-NoLogo"),
        lit("-NoProfile"),
        lit("-NonInteractive"),
        lit("-Command"),
        lit("-"),
    ]
}

/// The arguments that make `cmd.exe` print the file type registered for
/// `http`.
pub open spec fn ftype_args() -> Seq<Seq<u8>> {
    seq![lit("/Q"), lit("/C"), lit("ftype http")]
}

/// Asking Windows for the registered browser with `command`, and building
/// the command to start from what it prints. `tool` names the program
/// asked, for the failure of an empty answer.
pub open spec fn asking_windows(
    command: CommandView,
    script: Script,
    empty: Error,
    wc: WindowsConfigView,
    target: &Target,
    env: &Environment,
    replies: Seq<Reply>,
    at: nat,
) -> Turn<Result<CommandView, Error>> {
    if at >= replies.len() {
        Turn::Ask(RequestView::Capture { command, script })
    } else {
        match replies[at as int].output() {
            None => Turn::Done(
                Err(Error { kind: replies[at as int].failure(), message: "query could not be run" }),
                at + 1,
            ),
            Some(output) => if trimmed(output).len() == 0 {
                Turn::Done(Err(empty), at + 1)
            } else {
                wsl_cmdline(wc, trimmed(output), target, env, replies, at + 1)
            },
        }
    }
}

/// Asks Windows for the registered browser with `command`.
fn ask_windows(
    command: CandidateCommand,
    script: Script,
    empty: Error,
    wc: &WindowsConfig,
    target: &Target,
    host: &Host,
    at: usize,
) -> (r: Step<Result<CandidateCommand, Error>>)
    ensures
        r@ == asking_windows(
            command@,
            script,
            empty,
            wc@,
            target,
            &host.env,
            host.replies@,
            at as nat,
        ),
        !crate::host::asks_to_start(r@),
{
    let reply = match host.reply(at) {
        None => {
            return Step::Ask(Request::Capture { command, script });
        },
        Some(reply) => reply,
    };
    match reply.data() {
        None => Step::Done(Err(Error::new(reply.kind(), "query could not be run")), at + 1),
        Some(output) => {
            let line = trim(output.as_slice());
            if line.len() == 0 {
                Step::Done(Err(empty), at + 1)
            } else {
                parse_wsl_cmdline(wc, line.as_slice(), target, host, at + 1)
            }
        },
    }
}

/// Getting the default browser command through PowerShell.
pub open spec fn browser_by_powershell(
    wc: WindowsConfigView,
    target: &Target,
    env: &Environment,
    replies: Seq<Reply>,
    at: nat,
) -> Turn<Result<CommandView, Error>> {
    match wc.powershell_path {
        None => Turn::Done(Err(not_found("powershell.exe error")), at),
        Some(program) => asking_windows(
            CommandView { program, args: script_args(), dir: None },
            Script::DefaultBrowser,
            not_found("powershell.exe error"),
            wc,
            target,
            env,
            replies,
            at,
        ),
    }
}

/// Try to get default browser command from powershell.exe
pub fn get_wsl_windows_browser_ps(wc: &WindowsConfig, target: &Target, host: &Host, at: usize) -> (r:
    Step<Result<CandidateCommand, Error>>)
    ensures
        r@ == browser_by_powershell(wc@, target, &host.env, host.replies@, at as nat),
        !crate::host::asks_to_start(r@),
{
    let program = match &wc.powershell_path {
        None => {
            return Step::Done(Err(Error::new(ErrorKind::NotFound, "powershell.exe error")), at);
        },
        Some(p) => copy(p.as_slice()),
    };
    let mut args = no_texts();
    push_text(&mut args, "-NoLogo");
    push_text(&mut args, "-NoProfile");
    push_text(&mut args, "-NonInteractive");
    push_text(&mut args, "-Command");
    push_text(&mut args, "-");
    assert(texts(args@) == script_args());
    ask_windows(
        CandidateCommand { program, args, dir: None },
        Script::DefaultBrowser,
        Error::new(ErrorKind::NotFound, "powershell.exe error"),
        wc,
        target,
        host,
        at,
    )
}

/// Getting the default browser command through `cmd.exe`.
pub open spec fn browser_by_cmd(
    wc: WindowsConfigView,
    target: &Target,
    env: &Environment,
    replies: Seq<Reply>,
    at: nat,
) -> Turn<Result<CommandView, Error>> {
    asking_windows(
        CommandView { program: wc.cmd_path, args: ftype_args(), dir: None },
        Script::Nothing,
        not_found("cmd.exe error"),
        wc,
        target,
        env,
        replies,
        at,
    )
}

/// Try to get default browser command from cmd.exe
pub fn get_wsl_windows_browser_cmd(wc: &WindowsConfig, target: &Target, host: &Host, at: usize) -> (r:
    Step<Result<CandidateCommand, Error>>)
    ensures
        r@ == browser_by_cmd(wc@, target, &host.env, host.replies@, at as nat),
        !crate::host::asks_to_start(r@),
{
    let mut args = no_texts();
    push_text(&mut args, "/Q");
    push_text(&mut args, "/C");
    push_text(&mut args, "ftype http");
    assert(texts(args@) == ftype_args());
    ask_windows(
        CandidateCommand { program: copy(wc.cmd_path.as_slice()), args, dir: None },
        Script::Nothing,
        Error::new(ErrorKind::NotFound, "cmd.exe error"),
        wc,
        target,
        host,
        at,
    )
}

/// Finding the command that opens a local file in the browser of Windows:
/// Windows is located, then asked through PowerShell where there is one
/// and through `cmd.exe` where there is none.
pub open spec fn windows_browser(
    target: &Target,
    env: &Environment,
    replies: Seq<Reply>,
    at: nat,
) -> Turn<Result<CommandView, Error>> {
    match win_config(env, replies, at) {
        Turn::Ask(request) => Turn::Ask(request),
        Turn::Done(Err(e), next) => Turn::Done(Err(e), next),
        Turn::Done(Ok(wc), next) => if wc.powershell_path is Some {
            browser_by_powershell(wc, target, env, replies, next)
        } else {
            browser_by_cmd(wc, target, env, replies, next)
        },
    }
}

/// Finds the command that opens a local file in the browser of Windows.
pub fn find_windows_browser(target: &Target, host: &Host, at: usize) -> (r: Step<
    Result<CandidateCommand, Error>,
>)
    ensures
        r@ == windows_browser(target, &host.env, host.replies@, at as nat),
        !crate::host::asks_to_start(r@),
{
    match get_wsl_win_config(host, at) {
        Step::Ask(request) => Step::Ask(request),
        Step::Done(Err(e), next) => Step::Done(Err(e), next),
        Step::Done(Ok(wc), next) => if wc.powershell_path.is_some() {
            get_wsl_windows_browser_ps(&wc, target, host, next)
        } else {
            get_wsl_windows_browser_cmd(&wc, target, host, next)
        },
    }
}

} // verus!
