//! What holds of every probe, whatever the host holds.

use vstd::prelude::*;
use vstd::utf8::{decode_utf8, valid_utf8};
use crate::available::Available;
use crate::host::{candidates_left, dirs_left, launched, report_on, Host};
use crate::names::{candidate_names, Platform};
use crate::probe::{launchable, Entry, EventView, ProbeView, StageView};
use crate::report::{FindingView, ReportView};
use crate::text::{lemma_trimmed, trimmed, white_space};
use crate::version::{expected_text, verdict};

verus! {

/// Whether `host` holds a regular file under the name of candidate `candidate` in directory
/// `dir`.
pub open spec fn file_at(probe: ProbeView, host: Host, candidate: nat, dir: nat) -> bool {
    (host.entries)(probe.names[candidate as int], dir) is File
}

/// Whether the scan comes to (`c1`, `d1`) before it comes to (`c2`, `d2`): it goes through
/// the candidates in their order, and for each of them through all the directories.
pub open spec fn before(c1: nat, d1: nat, c2: nat, d2: nat) -> bool {
    c1 < c2 || (c1 == c2 && d1 < d2)
}

/// Whether (`candidate`, `dir`) is the first place, in the order of the scan, at which
/// `host` holds a regular file.
pub open spec fn first_file(probe: ProbeView, host: Host, candidate: nat, dir: nat) -> bool {
    &&& candidate < probe.names.len()
    &&& dir < probe.dirs
    &&& file_at(probe, host, candidate, dir)
    &&& forall|c: nat, d: nat|
        c < probe.names.len() && d < probe.dirs && before(c, d, candidate, dir) ==> !file_at(
            probe,
            host,
            c,
            d,
        )
}

/// Whether `host` holds no regular file under any candidate name in any directory.
pub open spec fn no_file(probe: ProbeView, host: Host) -> bool {
    forall|c: nat, d: nat| c < probe.names.len() && d < probe.dirs ==> !file_at(probe, host, c, d)
}

/// What there is to find out about the file of candidate `candidate` in directory `dir`:
/// whether it is executable, and if so, what it prints when asked for its version.
pub open spec fn finding_at(probe: ProbeView, host: Host, candidate: nat, dir: nat) -> FindingView {
    let name = probe.names[candidate as int];
    match (host.entries)(name, dir) {
        Entry::File { mode } => if !launchable(mode) {
            FindingView::NotExecutable
        } else {
            match (host.outputs)(name, dir) {
                Some(output) => verdict(probe.module, probe.version, output),
                None => FindingView::LaunchFailed,
            }
        },
        _ => FindingView::NotFound,
    }
}

/// Whether `host` holds at (`candidate`, `dir`) a regular file that counts as executable.
pub open spec fn executable_at(probe: ProbeView, host: Host, candidate: nat, dir: nat) -> bool {
    match (host.entries)(probe.names[candidate as int], dir) {
        Entry::File { mode } => launchable(mode),
        _ => false,
    }
}

/// The launches of a probe that finds its first regular file at (`candidate`, `dir`): that
/// file where it counts as executable, and none where it does not.
pub open spec fn launches_at(probe: ProbeView, host: Host, candidate: nat, dir: nat) -> Seq<
    (nat, nat),
> {
    if executable_at(probe, host, candidate, dir) {
        seq![(candidate, dir)]
    } else {
        Seq::empty()
    }
}

/// A probe that is looking at (`c0`, `d0`), with no regular file from there up to
/// (`candidate`, `dir`) and one at that place, ends with what is found out there.
proof fn lemma_scan_finds(probe: ProbeView, host: Host, candidate: nat, dir: nat)
    requires
        probe.wf(),
        probe.stage is Scanning,
        candidate < probe.names.len(),
        dir < probe.dirs,
        file_at(probe, host, candidate, dir),
        ({
            let c0 = probe.stage->Scanning_candidate;
            let d0 = probe.stage->Scanning_dir;
            &&& (c0 == candidate && d0 == dir) || before(c0, d0, candidate, dir)
            &&& forall|c: nat, d: nat|
                c < probe.names.len() && d < probe.dirs && !before(c, d, c0, d0) && before(
                    c,
                    d,
                    candidate,
                    dir,
                ) ==> !file_at(probe, host, c, d)
        }),
    ensures
        report_on(probe, host) == (ReportView {
            name: probe.names[candidate as int],
            finding: finding_at(probe, host, candidate, dir),
        }),
        launched(probe, host) == launches_at(probe, host, candidate, dir),
    decreases candidates_left(probe), dirs_left(probe),
{
    let c0 = probe.stage->Scanning_candidate;
    let d0 = probe.stage->Scanning_dir;
    let next = probe.step(host.answer(probe.action()));
    if c0 == candidate && d0 == dir {
        if executable_at(probe, host, candidate, dir) {
            assert(next.stage == StageView::Querying { candidate, dir });
            let last = next.step(host.answer(next.action()));
            assert(report_on(next, host) == report_on(last, host));
            assert(last.stage is Finished);
            assert(launched(last, host) =~= Seq::empty());
            assert(launched(next, host) =~= seq![(candidate, dir)]);
            assert(launched(probe, host) =~= launched(next, host));
        } else {
            assert(next.stage is Finished);
            assert(launched(next, host) =~= Seq::empty());
            assert(launched(probe, host) =~= launched(next, host));
        }
    } else {
        assert(!file_at(probe, host, c0, d0));
        assert(next.stage is Scanning);
        let c1 = next.stage->Scanning_candidate;
        let d1 = next.stage->Scanning_dir;
        assert forall|c: nat, d: nat|
            c < next.names.len() && d < next.dirs && !before(c, d, c1, d1) && before(
                c,
                d,
                candidate,
                dir,
            ) implies !file_at(next, host, c, d) by {
            assert(!before(c, d, c0, d0));
            assert(file_at(next, host, c, d) == file_at(probe, host, c, d));
        }
        assert(file_at(next, host, candidate, dir) == file_at(probe, host, candidate, dir));
        lemma_scan_finds(next, host, candidate, dir);
        assert(finding_at(next, host, candidate, dir) == finding_at(probe, host, candidate, dir));
        assert(executable_at(next, host, candidate, dir) == executable_at(
            probe,
            host,
            candidate,
            dir,
        ));
        assert(launched(probe, host) =~= launched(next, host));
    }
}

/// A probe that is looking at some place, with no regular file from there on, ends with
/// nothing found and nothing launched.
proof fn lemma_scan_misses(probe: ProbeView, host: Host)
    requires
        probe.wf(),
        probe.stage is Scanning,
        forall|c: nat, d: nat|
            c < probe.names.len() && d < probe.dirs && !before(
                c,
                d,
                probe.stage->Scanning_candidate,
                probe.stage->Scanning_dir,
            ) ==> !file_at(probe, host, c, d),
    ensures
        report_on(probe, host) == ReportView::not_found(),
        launched(probe, host) == Seq::<(nat, nat)>::empty(),
    decreases candidates_left(probe), dirs_left(probe),
{
    let c0 = probe.stage->Scanning_candidate;
    let d0 = probe.stage->Scanning_dir;
    let next = probe.step(host.answer(probe.action()));
    assert(!before(c0, d0, c0, d0));
    assert(!file_at(probe, host, c0, d0));
    if next.stage is Scanning {
        let c1 = next.stage->Scanning_candidate;
        let d1 = next.stage->Scanning_dir;
        assert forall|c: nat, d: nat|
            c < next.names.len() && d < next.dirs && !before(c, d, c1, d1) implies !file_at(
            next,
            host,
            c,
            d,
        ) by {
            assert(!before(c, d, c0, d0));
            assert(file_at(next, host, c, d) == file_at(probe, host, c, d));
        }
        lemma_scan_misses(next, host);
    } else {
        assert(next.stage == StageView::Finished(ReportView::not_found()));
    }
    assert(launched(probe, host) =~= launched(next, host));
}

/// Below a directory that holds a regular file of a candidate lies a first such directory.
proof fn lemma_first_dir(probe: ProbeView, host: Host, candidate: nat, dir: nat) -> (first: nat)
    requires
        file_at(probe, host, candidate, dir),
    ensures
        first <= dir,
        file_at(probe, host, candidate, first),
        forall|d: nat| d < first ==> !file_at(probe, host, candidate, d),
    decreases dir,
{
    if exists|d: nat| d < dir && file_at(probe, host, candidate, d) {
        let lower = choose|d: nat| d < dir && file_at(probe, host, candidate, d);
        lemma_first_dir(probe, host, candidate, lower)
    } else {
        dir
    }
}

/// The two candidate names of a module differ: one starts with a capital, the other does not.
proof fn lemma_names_differ(module: Seq<char>, platform: Platform)
    ensures
        candidate_names(module, platform).len() == 2,
        candidate_names(module, platform)[0] != candidate_names(module, platform)[1],
{
    let names = candidate_names(module, platform);
    assert(names[0][0] == 'M');
    assert(names[1][0] == 'm');
}

/// Where no candidate name is a regular file in any directory of the search path, and so
/// too where the search path is empty or not set, a probe ends with nothing found: the
/// classification is `No`, the matched name is empty, and nothing was launched.
pub proof fn law_nothing_found(
    module: Seq<char>,
    version: Seq<char>,
    platform: Platform,
    search_path: Option<usize>,
    host: Host,
)
    requires
        no_file(ProbeView::start(module, version, platform, search_path), host),
    ensures
        report_on(ProbeView::start(module, version, platform, search_path), host)
            == ReportView::not_found(),
        report_on(ProbeView::start(module, version, platform, search_path), host).available()
            == Available::No,
        launched(ProbeView::start(module, version, platform, search_path), host) == Seq::<
            (nat, nat),
        >::empty(),
{
    let probe = ProbeView::start(module, version, platform, search_path);
    if probe.stage is Scanning {
        lemma_scan_misses(probe, host);
    }
}

/// The first regular file that the scan comes to decides the report, whatever lies at the
/// places that the scan would come to later: the matched name is the candidate name of that
/// place, and the finding is what is found out about the file there. That file is launched,
/// once, where it counts as executable; no other file is launched, and none at all where it
/// does not.
pub proof fn law_first_file_decides(
    module: Seq<char>,
    version: Seq<char>,
    platform: Platform,
    search_path: Option<usize>,
    host: Host,
    candidate: nat,
    dir: nat,
)
    requires
        first_file(
            ProbeView::start(module, version, platform, search_path),
            host,
            candidate,
            dir,
        ),
    ensures
        ({
            let probe = ProbeView::start(module, version, platform, search_path);
            &&& report_on(probe, host) == (ReportView {
                name: probe.names[candidate as int],
                finding: finding_at(probe, host, candidate, dir),
            })
            &&& launched(probe, host) == launches_at(probe, host, candidate, dir)
        }),
{
    let probe = ProbeView::start(module, version, platform, search_path);
    lemma_scan_finds(probe, host, candidate, dir);
}

/// Where the first regular file that the scan comes to has permission bits and none of the
/// execute bits among them, the probe ends as `Degraded` with that file's candidate name,
/// and launches nothing.
pub proof fn law_not_executable(
    module: Seq<char>,
    version: Seq<char>,
    platform: Platform,
    search_path: Option<usize>,
    host: Host,
    candidate: nat,
    dir: nat,
)
    requires
        first_file(
            ProbeView::start(module, version, platform, search_path),
            host,
            candidate,
            dir,
        ),
        !executable_at(
            ProbeView::start(module, version, platform, search_path),
            host,
            candidate,
            dir,
        ),
    ensures
        ({
            let probe = ProbeView::start(module, version, platform, search_path);
            &&& report_on(probe, host).name == probe.names[candidate as int]
            &&& report_on(probe, host).finding == FindingView::NotExecutable
            &&& report_on(probe, host).available() == Available::Degraded
            &&& launched(probe, host) == Seq::<(nat, nat)>::empty()
        }),
{
    law_first_file_decides(module, version, platform, search_path, host, candidate, dir);
}

/// Where the first regular file that the scan comes to is executable and prints the
/// expected text, `module`, a space and `version`, with nothing but whitespace before it
/// and after it, the probe ends as `Yes` with that file's candidate name, having launched
/// that file and no other. This is for an
/// expected text that neither starts nor ends with whitespace: no trimmed output equals
/// another.
pub proof fn law_confirmed(
    module: Seq<char>,
    version: Seq<char>,
    platform: Platform,
    search_path: Option<usize>,
    host: Host,
    candidate: nat,
    dir: nat,
    output: Seq<u8>,
    before_text: Seq<char>,
    after_text: Seq<char>,
)
    requires
        first_file(
            ProbeView::start(module, version, platform, search_path),
            host,
            candidate,
            dir,
        ),
        executable_at(
            ProbeView::start(module, version, platform, search_path),
            host,
            candidate,
            dir,
        ),
        (host.outputs)(candidate_names(module, platform)[candidate as int], dir) == Some(output),
        valid_utf8(output),
        decode_utf8(output) == before_text + expected_text(module, version) + after_text,
        forall|k: int| 0 <= k < before_text.len() ==> white_space(#[trigger] before_text[k]),
        forall|k: int| 0 <= k < after_text.len() ==> white_space(#[trigger] after_text[k]),
        !white_space(expected_text(module, version).first()),
        !white_space(expected_text(module, version).last()),
    ensures
        ({
            let probe = ProbeView::start(module, version, platform, search_path);
            &&& report_on(probe, host).name == probe.names[candidate as int]
            &&& report_on(probe, host).finding == FindingView::Confirmed
            &&& report_on(probe, host).available() == Available::Yes
            &&& launched(probe, host) == seq![(candidate, dir)]
        }),
{
    law_first_file_decides(module, version, platform, search_path, host, candidate, dir);
    let expected = expected_text(module, version);
    let text = decode_utf8(output);
    let i = before_text.len() as int;
    let j = i + expected.len();
    assert forall|k: int| 0 <= k < i implies white_space(#[trigger] text[k]) by {
        assert(text[k] == before_text[k]);
    }
    assert forall|k: int| j <= k < text.len() implies white_space(#[trigger] text[k]) by {
        assert(text[k] == after_text[k - j]);
    }
    assert(text[i] == expected.first());
    assert(text[j - 1] == expected.last());
    lemma_trimmed(text, i, j);
    assert(text.subrange(i, j) =~= expected);
}

/// Where the first regular file that the scan comes to is executable, and its launch fails,
/// or it prints nothing, or bytes that are no text, or a text that, trimmed, is not the
/// expected one, the probe ends as `Degraded` with that file's candidate name, having
/// launched that file and no other.
pub proof fn law_unconfirmed(
    module: Seq<char>,
    version: Seq<char>,
    platform: Platform,
    search_path: Option<usize>,
    host: Host,
    candidate: nat,
    dir: nat,
)
    requires
        first_file(
            ProbeView::start(module, version, platform, search_path),
            host,
            candidate,
            dir,
        ),
        executable_at(
            ProbeView::start(module, version, platform, search_path),
            host,
            candidate,
            dir,
        ),
        match (host.outputs)(candidate_names(module, platform)[candidate as int], dir) {
            Some(output) => output.len() == 0 || !valid_utf8(output) || trimmed(
                decode_utf8(output),
            ) != expected_text(module, version),
            None => true,
        },
    ensures
        ({
            let probe = ProbeView::start(module, version, platform, search_path);
            &&& report_on(probe, host).name == probe.names[candidate as int]
            &&& report_on(probe, host).available() == Available::Degraded
            &&& launched(probe, host) == seq![(candidate, dir)]
        }),
{
    law_first_file_decides(module, version, platform, search_path, host, candidate, dir);
    match (host.outputs)(candidate_names(module, platform)[candidate as int], dir) {
        Some(output) => {
            if output.len() == 0 {
                assert(valid_utf8(output));
                assert(decode_utf8(output) =~= Seq::<char>::empty());
                assert(trimmed(Seq::<char>::empty()) =~= Seq::<char>::empty());
                assert(expected_text(module, version).len() > 0);
            }
        },
        None => {},
    }
}

/// The order of the candidates decides before the order of the directories: where some
/// directory holds a regular file of a candidate, and no directory holds one of an earlier
/// candidate, the probe ends with that candidate's name, and with no later candidate's,
/// whichever directories hold files of later candidates.
pub proof fn law_candidate_order(
    module: Seq<char>,
    version: Seq<char>,
    platform: Platform,
    search_path: Option<usize>,
    host: Host,
    candidate: nat,
    dir: nat,
)
    requires
        ({
            let probe = ProbeView::start(module, version, platform, search_path);
            &&& candidate < probe.names.len()
            &&& dir < probe.dirs
            &&& file_at(probe, host, candidate, dir)
            &&& forall|c: nat, d: nat|
                c < candidate && d < probe.dirs ==> !file_at(probe, host, c, d)
        }),
    ensures
        ({
            let probe = ProbeView::start(module, version, platform, search_path);
            &&& report_on(probe, host).name == probe.names[candidate as int]
            &&& forall|later: nat|
                candidate < later < probe.names.len() ==> report_on(probe, host).name
                    != probe.names[later as int]
        }),
{
    let probe = ProbeView::start(module, version, platform, search_path);
    let first = lemma_first_dir(probe, host, candidate, dir);
    law_first_file_decides(module, version, platform, search_path, host, candidate, first);
    lemma_names_differ(module, platform);
}

/// A step keeps the place that a probe looks at on the search path and among the candidates.
pub proof fn law_step_keeps_place(probe: ProbeView, event: EventView)
    requires
        probe.wf(),
    ensures
        probe.step(event).wf(),
{
}

/// A probe that has ended stays as it is, whatever it is told.
pub proof fn law_end_is_final(probe: ProbeView, event: EventView)
    requires
        probe.finished(),
    ensures
        probe.step(event) == probe,
{
}

/// The classification that a probe stands at changes in one way only, from `Degraded` to
/// `Yes`: `Yes` and `No` are final.
pub proof fn law_standing_only_rises(probe: ProbeView, event: EventView)
    requires
        probe.wf(),
    ensures
        match probe.standing() {
            Some(Available::Degraded) => probe.step(event).standing() == Some(Available::Degraded)
                || probe.step(event).standing() == Some(Available::Yes),
            Some(standing) => probe.step(event).standing() == Some(standing),
            None => true,
        },
{
}

} // verus!
