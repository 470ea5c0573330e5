//! Browser and installed-software discovery.
//!
//! The discovery tool reads the native registry: the user's default-browser
//! choice, the browser registrations under the four "start menu internet"
//! roots, each program identity's shell-open command, and the uninstall
//! list.  The reads themselves are plain key-value lookups with no logic in
//! them; the unverified shell performs them and hands the values over as a
//! [`RegistrySnapshot`] of plain data.  Everything decided from a snapshot
//! — which registrations count as browsers, how duplicates across roots
//! collapse, which commands are found, which software entries are complete
//! — is verified here.

use vstd::prelude::*;
use crate::marshal::str_eq;

verus! {

/// One browser registration found under a "start menu internet" root: the
/// subkey's name, the display name held in its default value, and the
/// program identity registered for https under its URL associations —
/// either value may be absent.
pub struct BrowserRegistration {
    pub key: String,
    pub display_name: Option<String>,
    pub https_prog_id: Option<String>,
}

/// The shell-open command registered for one program identity; the command
/// value may be absent even when the identity's key exists.
pub struct ProgIdCommand {
    pub prog_id: String,
    pub command: Option<String>,
}

/// One entry of the uninstall list; any of the three values may be absent.
pub struct UninstallEntry {
    pub key: String,
    pub display_name: Option<String>,
    pub display_version: Option<String>,
    pub install_location: Option<String>,
}

/// Everything the discovery reads from the registry, as plain values.
///
/// `registrations` holds the registrations of all four searched roots,
/// flattened in search order, so a browser registered under several roots
/// appears several times and the later occurrence wins.
pub struct RegistrySnapshot {
    /// The user's chosen default-browser program identity (the user-choice
    /// value for http), when set.
    pub default_http_prog_id: Option<String>,
    /// The browser registrations, flattened in search order.
    pub registrations: Vec<BrowserRegistration>,
    /// The shell-open command table, keyed by program identity.
    pub commands: Vec<ProgIdCommand>,
    /// The uninstall list, keyed by subkey name.
    pub uninstall: Vec<UninstallEntry>,
}

/// Identity of a found browser, as the discovery reports it.
pub struct BrowserInfo {
    pub name: String,
    pub command: String,
}

/// The abstract value of a [`BrowserInfo`].
pub struct BrowserInfoView {
    pub name: Seq<char>,
    pub command: Seq<char>,
}

impl View for BrowserInfo {
    type V = BrowserInfoView;

    open spec fn view(&self) -> BrowserInfoView {
        BrowserInfoView { name: self.name@, command: self.command@ }
    }
}

impl DeepView for BrowserInfo {
    type V = BrowserInfoView;

    open spec fn deep_view(&self) -> BrowserInfoView {
        self.view()
    }
}

/// One installed software entry, as the discovery reports it.
pub struct SoftwareInfo {
    pub name: String,
    pub version: String,
    pub path: String,
}

/// The abstract value of a [`SoftwareInfo`].
pub struct SoftwareInfoView {
    pub name: Seq<char>,
    pub version: Seq<char>,
    pub path: Seq<char>,
}

impl View for SoftwareInfo {
    type V = SoftwareInfoView;

    open spec fn view(&self) -> SoftwareInfoView {
        SoftwareInfoView { name: self.name@, version: self.version@, path: self.path@ }
    }
}

impl DeepView for SoftwareInfo {
    type V = SoftwareInfoView;

    open spec fn deep_view(&self) -> SoftwareInfoView {
        self.view()
    }
}

/// A lookup that found nothing: the key or the value is absent.
#[derive(Clone, Copy, Debug, PartialEq, Eq, Structural)]
pub enum RegError {
    NotFound,
}

/// The command the table registers for `id`: the command value of the
/// first entry whose program identity is `id`, `None` when no entry
/// matches or the matching entry holds no command.
pub open spec fn spec_lookup_command(cmds: Seq<ProgIdCommand>, id: Seq<char>) -> Option<Seq<char>>
    decreases cmds.len(),
{
    if cmds.len() == 0 {
        None
    } else if cmds[0].prog_id@ == id {
        match cmds[0].command {
            Some(c) => Some(c@),
            None => None,
        }
    } else {
        spec_lookup_command(cmds.drop_first(), id)
    }
}

/// The default browser's shell-open command, when both the user's choice
/// and its command are registered.
pub open spec fn spec_default_command(reg: RegistrySnapshot) -> Option<Seq<char>> {
    match reg.default_http_prog_id {
        Some(id) => spec_lookup_command(reg.commands@, id@),
        None => None,
    }
}

/// The user's chosen default-browser program identity.
pub fn get_default_webbrowser_id(reg: &RegistrySnapshot) -> (r: Result<String, RegError>)
    ensures
        r is Ok <==> reg.default_http_prog_id is Some,
        r is Ok ==> r.unwrap()@ == reg.default_http_prog_id.unwrap()@,
{
    match &reg.default_http_prog_id {
        Some(id) => Ok(id.clone()),
        None => Err(RegError::NotFound),
    }
}

/// The shell-open command registered for the program identity `prog_id`.
pub fn get_webbrowser_command(reg: &RegistrySnapshot, prog_id: &str) -> (r: Result<
    String,
    RegError,
>)
    ensures
        r is Ok <==> spec_lookup_command(reg.commands@, prog_id@) is Some,
        r is Ok ==> r.unwrap()@ == spec_lookup_command(reg.commands@, prog_id@).unwrap(),
{
    let cmds = &reg.commands;
    let mut i: usize = 0;
    proof {
        assert(cmds@.skip(0) =~= cmds@);
    }
    while i < cmds.len()
        invariant
            i <= cmds@.len(),
            cmds@ == reg.commands@,
            spec_lookup_command(cmds@, prog_id@) == spec_lookup_command(
                cmds@.skip(i as int),
                prog_id@,
            ),
        decreases cmds@.len() - i,
    {
        let entry = &cmds[i];
        proof {
            assert(cmds@.skip(i as int)[0] == cmds@[i as int]);
            assert(cmds@.skip(i as int).drop_first() =~= cmds@.skip(i + 1));
        }
        if str_eq(entry.prog_id.as_str(), prog_id) {
            match &entry.command {
                Some(c) => {
                    proof {
                        let s = cmds@.skip(i as int);
                        assert(s[0].prog_id@ == prog_id@);
                        assert(s[0].command == Some(*c));
                        assert(spec_lookup_command(s, prog_id@) == Some((*c)@));
                    }
                    return Ok(c.clone());
                },
                None => {
                    return Err(RegError::NotFound);
                },
            }
        }
        i = i + 1;
    }
    proof {
        assert(cmds@.skip(cmds@.len() as int) =~= Seq::<ProgIdCommand>::empty());
    }
    Err(RegError::NotFound)
}

/// The default browser's shell-open command: the command registered for
/// the user's chosen program identity.
pub fn get_default_webbrowser_command(reg: &RegistrySnapshot) -> (r: Result<String, RegError>)
    ensures
        r is Ok <==> spec_default_command(*reg) is Some,
        r is Ok ==> r.unwrap()@ == spec_default_command(*reg).unwrap(),
{
    let prog_id = get_default_webbrowser_id(reg)?;
    get_webbrowser_command(reg, prog_id.as_str())
}

/// A registration that counts as a browser: both the display name and the
/// https program identity are present.
pub open spec fn spec_is_candidate(reg: BrowserRegistration) -> bool {
    reg.display_name is Some && reg.https_prog_id is Some
}

/// The browser map of the flattened registrations: each program identity
/// found maps to the display name of its last complete registration, so a
/// browser registered under several roots collapses to the occurrence
/// found last.
pub open spec fn spec_browser_map(regs: Seq<BrowserRegistration>) -> Map<Seq<char>, Seq<char>>
    decreases regs.len(),
{
    if regs.len() == 0 {
        Map::empty()
    } else {
        let rest = spec_browser_map(regs.drop_first());
        let head = regs[0];
        if spec_is_candidate(head) && !rest.contains_key(head.https_prog_id.unwrap()@) {
            rest.insert(head.https_prog_id.unwrap()@, head.display_name.unwrap()@)
        } else {
            rest
        }
    }
}

/// The association map a list of key-value pairs holds; a later pair with
/// the same key overrides an earlier one.
pub open spec fn spec_pairs_map(pairs: Seq<(String, String)>) -> Map<Seq<char>, Seq<char>>
    decreases pairs.len(),
{
    if pairs.len() == 0 {
        Map::empty()
    } else {
        spec_pairs_map(pairs.drop_last()).insert(pairs.last().0@, pairs.last().1@)
    }
}

/// A pair list's map holds exactly the keys its pairs carry.
proof fn lemma_pairs_map_domain(pairs: Seq<(String, String)>, id: Seq<char>)
    ensures
        spec_pairs_map(pairs).contains_key(id) <==> exists|k: int|
            0 <= k < pairs.len() && (#[trigger] pairs[k]).0@ == id,
    decreases pairs.len(),
{
    if pairs.len() > 0 {
        lemma_pairs_map_domain(pairs.drop_last(), id);
        let n = pairs.len() as int;
        if pairs.last().0@ == id {
            assert(pairs[n - 1].0@ == id);
        } else {
            if spec_pairs_map(pairs).contains_key(id) {
                let k = choose|k: int|
                    0 <= k < pairs.drop_last().len() && (#[trigger] pairs.drop_last()[k]).0@ == id;
                assert(pairs[k].0@ == id);
            }
            if exists|k: int| 0 <= k < pairs.len() && (#[trigger] pairs[k]).0@ == id {
                let k = choose|k: int| 0 <= k < pairs.len() && (#[trigger] pairs[k]).0@ == id;
                assert(k < n - 1);
                assert(pairs.drop_last()[k].0@ == id);
            }
        }
    }
}

/// In a pair list with unique keys, the map sends each pair's key to that
/// pair's value.
proof fn lemma_pairs_map_at(pairs: Seq<(String, String)>)
    requires
        forall|p: int, q: int| 0 <= p < q < pairs.len() ==> pairs[p].0@ != pairs[q].0@,
    ensures
        forall|k: int|
            0 <= k < pairs.len() ==> spec_pairs_map(pairs).contains_key(
                (#[trigger] pairs[k]).0@,
            ) && spec_pairs_map(pairs)[pairs[k].0@] == pairs[k].1@,
    decreases pairs.len(),
{
    if pairs.len() > 0 {
        let front = pairs.drop_last();
        let n = pairs.len() as int;
        assert(forall|p: int, q: int|
            0 <= p < q < front.len() ==> (#[trigger] front[p]).0@ != (#[trigger] front[q]).0@);
        lemma_pairs_map_at(front);
        assert forall|k: int|
            0 <= k < pairs.len() implies spec_pairs_map(pairs).contains_key(
            (#[trigger] pairs[k]).0@,
        ) && spec_pairs_map(pairs)[pairs[k].0@] == pairs[k].1@ by {
            if k < n - 1 {
                assert(front[k] == pairs[k]);
                assert(pairs[k].0@ != pairs[n - 1].0@);
            }
        }
    }
}

/// Whether the collected pairs already hold `id` as a key.
fn holds_key(pairs: &Vec<(String, String)>, id: &str) -> (r: bool)
    ensures
        r == exists|k: int| 0 <= k < pairs@.len() && (#[trigger] pairs@[k]).0@ == id@,
{
    let mut i: usize = 0;
    while i < pairs.len()
        invariant
            i <= pairs@.len(),
            forall|k: int| 0 <= k < i ==> (#[trigger] pairs@[k]).0@ != id@,
        decreases pairs@.len() - i,
    {
        if str_eq(pairs[i].0.as_str(), id) {
            proof {
                assert(pairs@[i as int].0@ == id@);
            }
            return true;
        }
        i = i + 1;
    }
    false
}

/// The found browsers, as (program identity, display name) pairs with
/// unique identities, holding exactly the browser map of the snapshot's
/// registrations.
pub fn collect_webbrowser(reg: &RegistrySnapshot) -> (r: Vec<(String, String)>)
    ensures
        spec_pairs_map(r@) == spec_browser_map(reg.registrations@),
        forall|p: int, q: int| 0 <= p < q < r@.len() ==> r@[p].0@ != r@[q].0@,
{
    let regs = &reg.registrations;
    let mut found: Vec<(String, String)> = Vec::new();
    let mut i: usize = regs.len();
    proof {
        assert(regs@.skip(regs@.len() as int) =~= Seq::<BrowserRegistration>::empty());
    }
    while i > 0
        invariant
            i <= regs@.len(),
            regs@ == reg.registrations@,
            spec_pairs_map(found@) == spec_browser_map(regs@.skip(i as int)),
            forall|p: int, q: int| 0 <= p < q < found@.len() ==> found@[p].0@ != found@[q].0@,
        decreases i,
    {
        i = i - 1;
        let entry = &regs[i];
        let ghost pre = found@;
        let ghost s = regs@.skip(i as int);
        proof {
            assert(s[0] == regs@[i as int]);
            assert(s.drop_first() =~= regs@.skip(i + 1));
        }
        match &entry.https_prog_id {
            Some(id) => match &entry.display_name {
                Some(name) => {
                    let present = holds_key(&found, id.as_str());
                    proof {
                        lemma_pairs_map_domain(pre, id@);
                    }
                    if !present {
                        found.push((id.clone(), name.clone()));
                        proof {
                            assert(found@.drop_last() =~= pre);
                            assert(spec_pairs_map(found@) == spec_pairs_map(pre).insert(
                                id@,
                                name@,
                            ));
                        }
                    }
                },
                None => {},
            },
            None => {},
        }
    }
    proof {
        assert(regs@.skip(0) =~= regs@);
    }
    found
}

/// The found browsers joined with their shell-open commands.
///
/// The result holds one entry per found program identity whose command is
/// registered: the identity, its display name from the browser map, and
/// its command from the command table.  Identities without a registered
/// command are left out, and no identity appears twice.
#[verifier::rlimit(50)]
pub fn collect_webbrowser_info(reg: &RegistrySnapshot) -> (r: Vec<(String, BrowserInfo)>)
    ensures
        forall|k: int|
            0 <= k < r@.len() ==> {
                &&& spec_browser_map(reg.registrations@).contains_key((#[trigger] r@[k]).0@)
                &&& spec_browser_map(reg.registrations@)[r@[k].0@] == r@[k].1.name@
                &&& spec_lookup_command(reg.commands@, r@[k].0@) == Some(r@[k].1.command@)
            },
        forall|id: Seq<char>|
            #![trigger spec_lookup_command(reg.commands@, id)]
            spec_browser_map(reg.registrations@).contains_key(id) && spec_lookup_command(
                reg.commands@,
                id,
            ) is Some ==> exists|k: int| 0 <= k < r@.len() && (#[trigger] r@[k]).0@ == id,
        forall|p: int, q: int| 0 <= p < q < r@.len() ==> r@[p].0@ != r@[q].0@,
{
    let pairs = collect_webbrowser(reg);
    let mut out: Vec<(String, BrowserInfo)> = Vec::new();
    let mut i: usize = 0;
    proof {
        lemma_pairs_map_at(pairs@);
    }
    while i < pairs.len()
        invariant
            i <= pairs@.len(),
            spec_pairs_map(pairs@) == spec_browser_map(reg.registrations@),
            forall|p: int, q: int| 0 <= p < q < pairs@.len() ==> pairs@[p].0@ != pairs@[q].0@,
            forall|k: int|
                0 <= k < pairs@.len() ==> spec_pairs_map(pairs@).contains_key(
                    (#[trigger] pairs@[k]).0@,
                ) && spec_pairs_map(pairs@)[pairs@[k].0@] == pairs@[k].1@,
            forall|k: int|
                0 <= k < out@.len() ==> exists|j: int|
                    0 <= j < i && (#[trigger] out@[k]).0@ == pairs@[j].0@,
            forall|k: int|
                0 <= k < out@.len() ==> {
                    &&& spec_browser_map(reg.registrations@).contains_key((#[trigger] out@[k]).0@)
                    &&& spec_browser_map(reg.registrations@)[out@[k].0@] == out@[k].1.name@
                    &&& spec_lookup_command(reg.commands@, out@[k].0@) == Some(out@[k].1.command@)
                },
            forall|j: int|
                #![trigger pairs@[j]]
                0 <= j < i ==> (spec_lookup_command(reg.commands@, pairs@[j].0@) is Some
                    ==> exists|k: int| 0 <= k < out@.len() && (#[trigger] out@[k]).0@
                    == pairs@[j].0@),
            forall|p: int, q: int| 0 <= p < q < out@.len() ==> out@[p].0@ != out@[q].0@,
        decreases pairs@.len() - i,
    {
        let id = pairs[i].0.clone();
        let name = pairs[i].1.clone();
        let ghost pre = out@;
        match get_webbrowser_command(reg, id.as_str()) {
            Ok(command) => {
                out.push((id, BrowserInfo { name, command }));
                proof {
                    assert(out@[out@.len() - 1].0@ == pairs@[i as int].0@);
                    assert forall|k: int|
                        0 <= k < out@.len() implies exists|j: int|
                        0 <= j < i + 1 && (#[trigger] out@[k]).0@ == pairs@[j].0@ by {
                        if k < pre.len() {
                            let j = choose|j: int|
                                0 <= j < i && (#[trigger] pre[k]).0@ == pairs@[j].0@;
                            assert(out@[k] == pre[k]);
                            assert(out@[k].0@ == pairs@[j].0@);
                        } else {
                            assert(out@[k].0@ == pairs@[i as int].0@);
                        }
                    }
                    assert forall|j: int|
                        #![trigger pairs@[j]]
                        0 <= j < i + 1 && spec_lookup_command(reg.commands@, pairs@[j].0@)
                        is Some implies exists|k: int| 0 <= k < out@.len() && (#[trigger] out@[k]).0@
                        == pairs@[j].0@ by {
                        if j < i {
                            let k = choose|k: int|
                                0 <= k < pre.len() && (#[trigger] pre[k]).0@ == pairs@[j].0@;
                            assert(out@[k] == pre[k]);
                            assert(out@[k].0@ == pairs@[j].0@);
                        } else {
                            assert(out@[out@.len() - 1].0@ == pairs@[j].0@);
                        }
                    }
                }
            },
            Err(_) => {},
        }
        i = i + 1;
    }
    proof {
        assert forall|id: Seq<char>|
            #![trigger spec_lookup_command(reg.commands@, id)]
            spec_browser_map(reg.registrations@).contains_key(id) && spec_lookup_command(
                reg.commands@,
                id,
            ) is Some implies exists|k: int| 0 <= k < out@.len() && (#[trigger] out@[k]).0@
            == id by {
            lemma_pairs_map_domain(pairs@, id);
            let j = choose|j: int| 0 <= j < pairs@.len() && (#[trigger] pairs@[j]).0@ == id;
            assert(spec_lookup_command(reg.commands@, pairs@[j].0@) is Some);
        }
    }
    out
}

/// One uninstall entry is complete when all three of its values are
/// present.
pub open spec fn spec_is_complete(entry: UninstallEntry) -> bool {
    entry.display_name is Some && entry.display_version is Some && entry.install_location is Some
}

/// The software list of the uninstall entries: the complete entries, in
/// order, each as its key joined with the three values.
pub open spec fn spec_software_entries(entries: Seq<UninstallEntry>) -> Seq<
    (Seq<char>, SoftwareInfoView),
>
    decreases entries.len(),
{
    if entries.len() == 0 {
        Seq::empty()
    } else {
        let head = entries[0];
        let rest = spec_software_entries(entries.drop_first());
        if spec_is_complete(head) {
            seq![
                (
                    head.key@,
                    SoftwareInfoView {
                        name: head.display_name.unwrap()@,
                        version: head.display_version.unwrap()@,
                        path: head.install_location.unwrap()@,
                    },
                ),
            ] + rest
        } else {
            rest
        }
    }
}

/// The software list of two runs of entries in sequence is the first
/// run's list followed by the second's.
proof fn lemma_software_entries_append(a: Seq<UninstallEntry>, b: Seq<UninstallEntry>)
    ensures
        spec_software_entries(a + b) == spec_software_entries(a) + spec_software_entries(b),
    decreases a.len(),
{
    if a.len() == 0 {
        assert(a + b =~= b);
        assert(spec_software_entries(a) + spec_software_entries(b) =~= spec_software_entries(b));
    } else {
        assert((a + b).drop_first() =~= a.drop_first() + b);
        lemma_software_entries_append(a.drop_first(), b);
        assert((a + b)[0] == a[0]);
        assert(spec_software_entries(a + b) =~= spec_software_entries(a) + spec_software_entries(
            b,
        ));
    }
}

/// The installed software: exactly the complete uninstall entries, in
/// order, each under its subkey name.
pub fn get_installed_software(reg: &RegistrySnapshot) -> (r: Vec<(String, SoftwareInfo)>)
    ensures
        r.deep_view() == spec_software_entries(reg.uninstall@),
{
    let entries = &reg.uninstall;
    let mut out: Vec<(String, SoftwareInfo)> = Vec::new();
    let mut i: usize = 0;
    proof {
        assert(entries@.take(0) =~= Seq::<UninstallEntry>::empty());
    }
    while i < entries.len()
        invariant
            i <= entries@.len(),
            entries@ == reg.uninstall@,
            out.deep_view() =~~= spec_software_entries(entries@.take(i as int)),
        decreases entries@.len() - i,
    {
        let entry = &entries[i];
        let ghost pre = out.deep_view();
        let ghost head = entries@[i as int];
        match &entry.display_name {
            Some(name) => match &entry.display_version {
                Some(version) => match &entry.install_location {
                    Some(path) => {
                        let info = SoftwareInfo {
                            name: name.clone(),
                            version: version.clone(),
                            path: path.clone(),
                        };
                        out.push((entry.key.clone(), info));
                        proof {
                            assert(out.deep_view() =~~= pre.push(
                                (
                                    head.key@,
                                    SoftwareInfoView {
                                        name: head.display_name.unwrap()@,
                                        version: head.display_version.unwrap()@,
                                        path: head.install_location.unwrap()@,
                                    },
                                ),
                            ));
                        }
                    },
                    None => {},
                },
                None => {},
            },
            None => {},
        }
        proof {
            let one = seq![head];
            assert(entries@.take(i + 1) =~= entries@.take(i as int) + one);
            lemma_software_entries_append(entries@.take(i as int), one);
            assert(one.drop_first() =~= Seq::<UninstallEntry>::empty());
            assert(spec_software_entries(Seq::<UninstallEntry>::empty()) =~= Seq::<
                (Seq<char>, SoftwareInfoView),
            >::empty());
            if spec_is_complete(head) {
                assert(spec_software_entries(one) =~= seq![
                    (
                        head.key@,
                        SoftwareInfoView {
                            name: head.display_name.unwrap()@,
                            version: head.display_version.unwrap()@,
                            path: head.install_location.unwrap()@,
                        },
                    ),
                ]);
            } else {
                assert(spec_software_entries(one) =~= Seq::<
                    (Seq<char>, SoftwareInfoView),
                >::empty());
            }
            assert(out.deep_view() =~~= spec_software_entries(entries@.take(i + 1)));
        }
        i = i + 1;
    }
    proof {
        assert(entries@.take(entries@.len() as int) =~= entries@);
    }
    out
}

/// The words of a command under POSIX-shell splitting, or nothing when
/// the command does not parse (mismatched quoting).
pub uninterp spec fn shell_split(command: Seq<char>) -> Option<Seq<Seq<char>>>;

/// Relies on shell_words::split: POSIX-shell word splitting, a pure
/// function of the command's characters alone; it fails exactly on
/// mismatched quoting.
#[verifier::external_body]
fn split_shell_words(command: &str) -> (r: Option<Vec<String>>)
    ensures
        match r {
            Some(words) => shell_split(command@) == Some(words.deep_view()),
            None => shell_split(command@) is None,
        },
{
    match shell_words::split(command) {
        Ok(words) => Some(words),
        Err(_) => None,
    }
}

/// The word list emitted beside a browser's command: the shell-split
/// words, or no words at all when the command does not parse.
pub fn command_words(command: &str) -> (r: Vec<String>)
    ensures
        shell_split(command@) is Some ==> r.deep_view() == shell_split(command@).unwrap(),
        shell_split(command@) is None ==> r@.len() == 0,
{
    match split_shell_words(command) {
        Some(words) => words,
        None => Vec::new(),
    }
}

} // verus!
