//! Port reaper: finds the processes that listen on the server's port and
//! plans their termination, so that an orphan of an earlier session cannot
//! block the next launch.

use crate::command::invocation_views;
use crate::command::plain_command;
use crate::command::Invocation;
use crate::command::InvocationView;
use crate::locator::Platform;
use crate::text::append;
use crate::text::decimal;
use crate::text::format_decimal;
use crate::text::lemma_decimal_digits;
use crate::text::lemma_decimal_is_injective;
use crate::text::ends_with;
use crate::text::ends_with_bytes;
use crate::text::lines;
use crate::text::lines_of;
use crate::text::rows;
use crate::text::same_bytes;
use crate::text::trim;
use crate::text::trimmed;
use crate::text::words;
use crate::text::words_of;
use vstd::prelude::*;
use vstd::string::StringSliceAdditionalSpecFns;

verus! {

/// How long, in milliseconds, killed processes are given to let go of the
/// port before the launch goes on.
pub const REAP_SETTLE_MS: u64 = 500;

/// The text that marks a port in a socket listing: a colon and the port's
/// decimal digits.
pub open spec fn port_tag_of(port: u16) -> Seq<u8> {
    seq![58u8] + decimal(port as nat)
}

/// Builds the text that marks a port in a socket listing.
pub fn port_tag(port: u16) -> (r: Vec<u8>)
    ensures
        r@ == port_tag_of(port),
{
    let mut r: Vec<u8> = Vec::new();
    r.push(58);
    let digits = format_decimal(port as u64);
    append(&mut r, digits.as_slice());
    proof {
        assert(r@ =~= port_tag_of(port));
    }
    r
}

/// The command that lists the processes on a port. On Unix-like systems
/// `lsof -ti :<port>` prints one process id per line; on Windows
/// `netstat -ano` prints the whole socket table.
pub open spec fn listing_command_of(platform: Platform, port: u16) -> InvocationView {
    if platform.windows() {
        plain_command("netstat".spec_bytes()).with_arg("-ano".spec_bytes())
    } else {
        plain_command("lsof".spec_bytes()).with_arg("-ti".spec_bytes()).with_arg(port_tag_of(port))
    }
}

/// Builds the command that lists the processes on a port.
pub fn listing_command(platform: Platform, port: u16) -> (r: Invocation)
    ensures
        r@ == listing_command_of(platform, port),
{
    if platform.is_windows() {
        let mut cmd = Invocation::new("netstat".as_bytes());
        cmd.arg("-ano".as_bytes());
        cmd
    } else {
        let mut cmd = Invocation::new("lsof".as_bytes());
        cmd.arg("-ti".as_bytes());
        let tag = port_tag(port);
        cmd.arg(tag.as_slice());
        cmd
    }
}

/// The command that forcibly ends one process: `kill -9 <pid>` on Unix-like
/// systems, `taskkill /F /PID <pid>` on Windows.
pub open spec fn kill_command_of(platform: Platform, pid: Seq<u8>) -> InvocationView {
    if platform.windows() {
        plain_command("taskkill".spec_bytes()).with_arg("/F".spec_bytes()).with_arg(
            "/PID".spec_bytes(),
        ).with_arg(pid)
    } else {
        plain_command("kill".spec_bytes()).with_arg("-9".spec_bytes()).with_arg(pid)
    }
}

/// Builds the command that forcibly ends one process.
pub fn kill_command(platform: Platform, pid: &[u8]) -> (r: Invocation)
    ensures
        r@ == kill_command_of(platform, pid@),
{
    if platform.is_windows() {
        let mut cmd = Invocation::new("taskkill".as_bytes());
        cmd.arg("/F".as_bytes());
        cmd.arg("/PID".as_bytes());
        cmd.arg(pid);
        cmd
    } else {
        let mut cmd = Invocation::new("kill".as_bytes());
        cmd.arg("-9".as_bytes());
        cmd.arg(pid);
        cmd
    }
}

/// How many columns a line of `netstat` has that shows a TCP socket:
/// protocol, local address, foreign address, state and process id.
pub const SOCKET_COLUMNS: usize = 5;

/// The line of `netstat` shows a socket that listens on the port: it has
/// the five columns of a TCP socket, its local address ends in the port's
/// tag, and its state is `LISTENING`.
pub open spec fn shows_listener(columns: Seq<Seq<u8>>, port: u16) -> bool {
    columns.len() == SOCKET_COLUMNS && ends_with_bytes(columns[1], port_tag_of(port)) && columns[3]
        == "LISTENING".spec_bytes()
}

/// The process id that one line of a listing names, if it names one. A
/// line of `lsof` is a process id with blanks around it. A line of `netstat`
/// names one where it shows a socket that listens on the port: the id is
/// the line's last column.
pub open spec fn pid_of_line(platform: Platform, port: u16, line: Seq<u8>) -> Option<Seq<u8>> {
    if platform.windows() {
        if shows_listener(words_of(line), port) {
            Some(words_of(line)[4])
        } else {
            None
        }
    } else {
        if trimmed(line).len() > 0 {
            Some(trimmed(line))
        } else {
            None
        }
    }
}

/// The process ids that the given lines name, in order.
pub open spec fn pids_of_lines(platform: Platform, port: u16, lines: Seq<Seq<u8>>) -> Seq<Seq<u8>>
    decreases lines.len(),
{
    if lines.len() == 0 {
        Seq::empty()
    } else {
        let before = pids_of_lines(platform, port, lines.drop_last());
        match pid_of_line(platform, port, lines.last()) {
            Some(pid) => before.push(pid),
            None => before,
        }
    }
}

/// The ids of the processes that a listing shows on the port, in the
/// listing's order.
pub open spec fn listening_pids_of(platform: Platform, port: u16, listing: Seq<u8>) -> Seq<
    Seq<u8>,
> {
    pids_of_lines(platform, port, lines_of(listing))
}

/// Reads one line of a listing.
pub fn pid_in_line(platform: Platform, port: u16, line: &[u8]) -> (r: Option<Vec<u8>>)
    ensures
        r.is_some() == pid_of_line(platform, port, line@).is_some(),
        r.is_some() ==> r.unwrap()@ == pid_of_line(platform, port, line@).unwrap(),
{
    if platform.is_windows() {
        let mut columns = words(line);
        if columns.len() != SOCKET_COLUMNS {
            return None;
        }
        let tag = port_tag(port);
        if ends_with(columns[1].as_slice(), tag.as_slice()) && same_bytes(
            columns[3].as_slice(),
            "LISTENING".as_bytes(),
        ) {
            columns.pop()
        } else {
            None
        }
    } else {
        let pid = trim(line);
        if pid.len() > 0 {
            Some(pid)
        } else {
            None
        }
    }
}

/// Reads the ids of the processes on the port out of a listing.
pub fn listening_pids(platform: Platform, port: u16, listing: &[u8]) -> (r: Vec<Vec<u8>>)
    ensures
        rows(r@) == listening_pids_of(platform, port, listing@),
{
    let all = lines(listing);
    let mut pids: Vec<Vec<u8>> = Vec::new();
    let mut i: usize = 0;
    proof {
        assert(rows(all@).subrange(0, 0) =~= Seq::<Seq<u8>>::empty());
        assert(rows(pids@) =~= Seq::<Seq<u8>>::empty());
    }
    while i < all.len()
        invariant
            i <= all@.len(),
            rows(all@) == lines_of(listing@),
            rows(pids@) == pids_of_lines(platform, port, rows(all@).subrange(0, i as int)),
        decreases all@.len() - i,
    {
        let ghost before = rows(pids@);
        let found = pid_in_line(platform, port, all[i].as_slice());
        proof {
            let upto = rows(all@).subrange(0, i + 1);
            assert(upto.drop_last() =~= rows(all@).subrange(0, i as int));
            assert(upto.last() == all@[i as int]@);
        }
        match found {
            Some(pid) => {
                pids.push(pid);
                proof {
                    assert(rows(pids@) =~= before.push(pid@));
                }
            },
            None => {},
        }
        i += 1;
    }
    proof {
        assert(rows(all@).subrange(0, i as int) =~= rows(all@));
    }
    pids
}

/// The kill commands for a list of process ids, one each, in order.
pub open spec fn kill_commands_of(platform: Platform, pids: Seq<Seq<u8>>) -> Seq<InvocationView> {
    Seq::new(pids.len(), |i: int| kill_command_of(platform, pids[i]))
}

/// What one pass of the reaper does, given what the listing command
/// printed: one kill command for each process on the port. Where the
/// listing could not be had (`None`), nothing is killed.
pub open spec fn reap_plan_of(platform: Platform, port: u16, listing: Option<Seq<u8>>) -> Seq<
    InvocationView,
> {
    match listing {
        Some(text) => kill_commands_of(platform, listening_pids_of(platform, port, text)),
        None => Seq::empty(),
    }
}

/// Plans one pass of the reaper from what the listing command printed, or
/// from `None` where it could not be run. The caller runs the commands and
/// ignores their failures: a reap that fails is never fatal.
pub fn reap_plan(platform: Platform, port: u16, listing: Option<&[u8]>) -> (r: Vec<Invocation>)
    ensures
        invocation_views(r@) == reap_plan_of(
            platform,
            port,
            match listing {
                Some(text) => Some(text@),
                None => None,
            },
        ),
{
    let mut plan: Vec<Invocation> = Vec::new();
    match listing {
        Some(text) => {
            let pids = listening_pids(platform, port, text);
            let mut i: usize = 0;
            while i < pids.len()
                invariant
                    i <= pids@.len(),
                    plan@.len() == i,
                    forall|j: int| 0 <= j < i ==> plan@[j]@ == kill_command_of(platform, pids@[j]@),
                decreases pids@.len() - i,
            {
                plan.push(kill_command(platform, pids[i].as_slice()));
                i += 1;
            }
            proof {
                assert(invocation_views(plan@) =~= kill_commands_of(platform, rows(pids@)));
            }
        },
        None => {
            proof {
                assert(invocation_views(plan@) =~= Seq::<InvocationView>::empty());
            }
        },
    }
    plan
}

/// A port's tag ends a local address only where the address carries that
/// very port: the tag of port 800 does not end an address on port 8000.
pub proof fn lemma_port_tag_is_exact(host: Seq<u8>, carried: u16, port: u16)
    requires
        ends_with_bytes(host + port_tag_of(carried), port_tag_of(port)),
    ensures
        carried == port,
{
    let full = host + port_tag_of(carried);
    let have = port_tag_of(carried);
    let want = port_tag_of(port);
    lemma_decimal_digits(carried as nat);
    lemma_decimal_digits(port as nat);
    let tail = full.subrange(full.len() - want.len(), full.len() as int);
    assert(tail == want);
    if want.len() > have.len() {
        let k = want.len() - have.len();
        assert(tail[k] == full[host.len() as int]);
        assert(full[host.len() as int] == have[0]);
        assert(want[k] == decimal(port as nat)[k - 1]);
    } else if want.len() < have.len() {
        let k = have.len() - want.len();
        assert(tail[0] == full[host.len() + k]);
        assert(full[host.len() + k] == have[k]);
        assert(have[k] == decimal(carried as nat)[k - 1]);
        assert(want[0] == 58);
    } else {
        assert(tail =~= have);
        assert(have.subrange(1, have.len() as int) =~= decimal(carried as nat));
        assert(want.subrange(1, want.len() as int) =~= decimal(port as nat));
        lemma_decimal_is_injective(carried as nat, port as nat);
    }
}

/// The reaper takes a line of `netstat` for a listener on the port only
/// where the socket's own local address carries that port: a process that
/// listens elsewhere, or merely talks to the port, is never named.
pub proof fn lemma_listener_is_on_the_port(
    line: Seq<u8>,
    port: u16,
    host: Seq<u8>,
    carried: u16,
)
    requires
        pid_of_line(Platform::Windows, port, line) is Some,
        words_of(line).len() > 1,
        words_of(line)[1] == host + port_tag_of(carried),
    ensures
        carried == port,
        words_of(line)[3] == "LISTENING".spec_bytes(),
{
    lemma_port_tag_is_exact(host, carried, port);
}

/// A pass of the reaper went wrong. This is logged and never fatal: whether
/// the server can bind the port afterwards is what counts.
#[derive(Clone, Copy, Debug, PartialEq, Eq, Structural)]
pub enum ReapError {
    /// The listing could not be had, or a kill command failed.
    PortReapFailed,
}

/// Judges a pass of the reaper: it went well where the listing was had and
/// none of the kill commands failed.
pub fn judge_reap(listing_available: bool, kills_failed: usize) -> (r: Result<(), ReapError>)
    ensures
        r is Ok == (listing_available && kills_failed == 0),
        r is Err ==> r == Err::<(), ReapError>(ReapError::PortReapFailed),
{
    if listing_available && kills_failed == 0 {
        Ok(())
    } else {
        Err(ReapError::PortReapFailed)
    }
}

/// A pass of the reaper names every process that its listing shows on the
/// port, and no other: the plan holds one kill command for each process id
/// of the listing, in the listing's order. So a process that still holds
/// the port after a teardown is killed by the pass that follows.
pub proof fn lemma_reap_kills_every_listener(platform: Platform, port: u16, listing: Seq<u8>)
    ensures
        reap_plan_of(platform, port, Some(listing)).len() == listening_pids_of(
            platform,
            port,
            listing,
        ).len(),
        forall|i: int|
            0 <= i < listening_pids_of(platform, port, listing).len() ==> #[trigger] reap_plan_of(
                platform,
                port,
                Some(listing),
            )[i] == kill_command_of(platform, listening_pids_of(platform, port, listing)[i]),
{
}

/// A pass of the reaper on a port that nothing listens on does nothing:
/// a listing in which no line names a process yields no kill command. The
/// plan depends on the listing alone, so a second pass on a port that is
/// still clear does nothing again.
pub proof fn lemma_clear_port_reap_is_noop(platform: Platform, port: u16, listing: Seq<u8>)
    requires
        forall|i: int|
            0 <= i < lines_of(listing).len() ==> pid_of_line(
                platform,
                port,
                #[trigger] lines_of(listing)[i],
            ) is None,
    ensures
        listening_pids_of(platform, port, listing) == Seq::<Seq<u8>>::empty(),
        reap_plan_of(platform, port, Some(listing)) == Seq::<InvocationView>::empty(),
{
    lemma_no_pid_in_any_line(platform, port, lines_of(listing));
    assert(kill_commands_of(platform, Seq::<Seq<u8>>::empty()) =~= Seq::<InvocationView>::empty());
}

/// Lines of which none names a process yield no process id.
pub proof fn lemma_no_pid_in_any_line(platform: Platform, port: u16, lines: Seq<Seq<u8>>)
    requires
        forall|i: int| 0 <= i < lines.len() ==> pid_of_line(platform, port, #[trigger] lines[i])
            is None,
    ensures
        pids_of_lines(platform, port, lines) == Seq::<Seq<u8>>::empty(),
    decreases lines.len(),
{
    if lines.len() > 0 {
        let front = lines.drop_last();
        assert forall|i: int| 0 <= i < front.len() implies pid_of_line(
            platform,
            port,
            #[trigger] front[i],
        ) is None by {
            assert(front[i] == lines[i]);
        }
        lemma_no_pid_in_any_line(platform, port, front);
        assert(lines.last() == lines[lines.len() - 1]);
    }
}

/// An empty listing, as `lsof` prints for a port that nothing listens on,
/// names no process on either platform.
pub proof fn lemma_empty_listing_is_clear(platform: Platform, port: u16)
    ensures
        reap_plan_of(platform, port, Some(Seq::<u8>::empty())) == Seq::<InvocationView>::empty(),
{
    assert(lines_of(Seq::<u8>::empty()) =~= Seq::<Seq<u8>>::empty());
    lemma_clear_port_reap_is_noop(platform, port, Seq::<u8>::empty());
}

} // verus!
