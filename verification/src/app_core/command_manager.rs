//! Package installation and account lookups for the current user.
use vstd::prelude::*;
use crate::app_core::package_manager::{
    choose_package_manager, elevated_command, lists_package, listed_in, vendor_command,
    vendor_command_spec, CommandKind, PackageManager,
};
use crate::process::{owned, texts, Invocation};
use crate::text::{
    chars_of, fields, fields_of, lines, lines_of, parse_u32, parse_u32_spec, same_text,
    starts_with, string_of, words, words_of,
};

verus! {

/// Runs package-manager commands for the detected system package manager.
pub struct CommandManager {
    pub package_manager: PackageManager,
}

/// Why a package-manager command could not be formed.
#[derive(Debug, PartialEq, Eq, Structural)]
pub enum CommandError {
    /// The vendor has no install command.
    InstallUnavailable,
    /// The vendor has no list command.
    ListUnavailable,
    /// Neither `doas` nor `sudo` can be used.
    ElevatedUnavailable,
}

impl CommandError {
    /// The error text.
    pub fn message(&self) -> (m: String)
        ensures
            m@ == (match self {
                CommandError::InstallUnavailable => "Install command not available"@,
                CommandError::ListUnavailable => "List command not available"@,
                CommandError::ElevatedUnavailable => "Elevated command not available"@,
            }),
    {
        match self {
            CommandError::InstallUnavailable => owned("Install command not available"),
            CommandError::ListUnavailable => owned("List command not available"),
            CommandError::ElevatedUnavailable => owned("Elevated command not available"),
        }
    }
}

/// The index of the first element of `cmd` equal to `x`.
pub open spec fn first_index_of(cmd: Seq<Seq<char>>, x: Seq<char>) -> Option<int>
    decreases cmd.len(),
{
    if cmd.len() == 0 {
        None
    } else if cmd[0] == x {
        Some(0)
    } else {
        match first_index_of(cmd.drop_first(), x) {
            Some(i) => Some(i + 1),
            None => None,
        }
    }
}

/// The command line with its first `$` argument replaced by the package name.
pub open spec fn fill_placeholder_spec(cmd: Seq<Seq<char>>, package: Seq<char>) -> Seq<Seq<char>> {
    match first_index_of(cmd, "$"@) {
        Some(i) => cmd.update(i, package),
        None => cmd,
    }
}

/// A found index is in range.
proof fn lemma_first_index_of(cmd: Seq<Seq<char>>, x: Seq<char>)
    ensures
        first_index_of(cmd, x) matches Some(i) ==> 0 <= i < cmd.len() && cmd[i] == x,
    decreases cmd.len(),
{
    if cmd.len() > 0 && cmd[0] != x {
        lemma_first_index_of(cmd.drop_first(), x);
    }
}

/// Every vendor's install command ends in its one `$`: filling it in puts
/// the package as the last argument after the vendor's own words.
pub proof fn lemma_install_template(pm: PackageManager, package: Seq<char>)
    ensures
        fill_placeholder_spec(vendor_command_spec(pm, CommandKind::Install), package)
            == vendor_command_spec(pm, CommandKind::Install).drop_last().push(package),
        vendor_command_spec(pm, CommandKind::Install).len() >= 3,
{
    reveal_strlit("$");
    reveal_strlit("apk");
    reveal_strlit("add");
    reveal_strlit("apt");
    reveal_strlit("install");
    reveal_strlit("--install-recommends");
    reveal_strlit("brew");
    reveal_strlit("choco");
    reveal_strlit("dnf");
    reveal_strlit("pacman");
    reveal_strlit("-S");
    reveal_strlit("pkg");
    reveal_strlit("pkgin");
    reveal_strlit("scoop");
    reveal_strlit("yum");
    let t = vendor_command_spec(pm, CommandKind::Install);
    let n = t.len() - 1;
    assert(t[n] == "$"@);
    assert forall|k: int| 0 <= k < n implies t[k] != "$"@ by {
        assert(t[k].len() != 1 || t[k][0] != '$');
    }
    lemma_first_dollar_last(t);
    assert(t.update(n, package) =~= t.drop_last().push(package));
}

/// The first `$` of a command line whose only `$` is its last argument.
proof fn lemma_first_dollar_last(t: Seq<Seq<char>>)
    requires
        t.len() > 0,
        t.last() == "$"@,
        forall|k: int| 0 <= k < t.len() - 1 ==> t[k] != "$"@,
    ensures
        first_index_of(t, "$"@) == Some((t.len() - 1) as int),
    decreases t.len(),
{
    if t.len() > 1 {
        assert(t[0] != "$"@);
        let rest = t.drop_first();
        assert forall|k: int| 0 <= k < rest.len() - 1 implies rest[k] != "$"@ by {
            assert(rest[k] == t[k + 1]);
        }
        lemma_first_dollar_last(rest);
    }
}

/// Replaces the first `$` argument of a vendor command line by `package`.
#[verifier::loop_isolation(false)]
pub fn fill_placeholder(cmd: Vec<String>, package: &str) -> (r: Vec<String>)
    ensures
        texts(r@) == fill_placeholder_spec(texts(cmd@), package@),
{
    let mut cmd = cmd;
    let ghost start = texts(cmd@);
    let mut i: usize = 0;
    assert(start.skip(0) =~= start);
    while i < cmd.len()
        invariant
            i <= cmd.len(),
            texts(cmd@) == start,
            first_index_of(start, "$"@) == (match first_index_of(start.skip(i as int), "$"@) {
                Some(j) => Some(j + i),
                None => None,
            }),
        decreases cmd.len() - i,
    {
        if same_text(cmd[i].as_str(), "$") {
            let ghost rest = start.skip(i as int);
            assert(rest[0] == start[i as int]);
            assert(first_index_of(rest, "$"@) == Some(0int));
            assert(first_index_of(start, "$"@) == Some(i as int));
            cmd.set(i, owned(package));
            assert(texts(cmd@) =~= start.update(i as int, package@));
            return cmd;
        }
        assert(start.skip(i as int).drop_first() =~= start.skip(i + 1));
        i = i + 1;
    }
    assert(start.skip(i as int) =~= Seq::<Seq<char>>::empty());
    cmd
}

/// The invocation that installs `package`: the vendor install command line,
/// filled in, run through `elevated` with the non-interactive flag `-y`.
pub fn install_invocation(template: Vec<String>, package: &str, elevated: String) -> (inv:
    Invocation)
    ensures
        inv@.program == elevated@,
        inv@.args == fill_placeholder_spec(texts(template@), package@).push("-y"@),
{
    let mut args = fill_placeholder(template, package);
    let ghost filled = texts(args@);
    args.push(owned("-y"));
    assert(texts(args@) =~= filled.push("-y"@));
    Invocation { program: elevated, args }
}

/// The invocation that lists the installed packages, with `package` added as
/// the last argument.
pub open spec fn list_invocation_spec(pm: PackageManager, package: Seq<char>) -> (Seq<char>, Seq<Seq<char>>) {
    let cmd = vendor_command_spec(pm, CommandKind::List).push(package);
    (cmd[0], cmd.drop_first())
}

/// The numeric id on the first line of a `/proc/self/status` text that starts
/// with `key`: after `key` must come `:`, then the first whitespace-separated
/// word is read as a `u32`.
pub open spec fn id_in_lines(ls: Seq<Seq<char>>, key: Seq<char>) -> Option<u32>
    decreases ls.len(),
{
    if ls.len() == 0 {
        None
    } else if key.is_prefix_of(ls[0]) {
        let rest = ls[0].skip(key.len() as int);
        if rest.len() > 0 && rest[0] == ':' {
            let ws = words(rest.drop_first());
            if ws.len() > 0 {
                parse_u32_spec(ws[0])
            } else {
                None
            }
        } else {
            None
        }
    } else {
        id_in_lines(ls.drop_first(), key)
    }
}

/// The first name in a colon-separated account file (`name:x:id:...`, as
/// `/etc/passwd` and `/etc/group`) whose third field reads as `target`.
pub open spec fn name_in_lines(ls: Seq<Seq<char>>, target: u32) -> Option<Seq<char>>
    decreases ls.len(),
{
    if ls.len() == 0 {
        None
    } else {
        let f = fields(ls[0], ':');
        if f.len() >= 3 && parse_u32_spec(f[2]) == Some(target) {
            Some(f[0])
        } else {
            name_in_lines(ls.drop_first(), target)
        }
    }
}

/// The view of an optional text.
pub open spec fn opt_text(o: Option<&str>) -> Option<Seq<char>> {
    match o {
        Some(t) => Some(t@),
        None => None,
    }
}

/// The id that nobody owns, used when the real one cannot be read.
pub open spec fn unknown_id() -> u32 {
    65534
}

/// A name read from an account file, or `fallback`.
pub open spec fn account_name(file: Option<Seq<char>>, id: u32, fallback: Seq<char>) -> Seq<char> {
    match file {
        Some(text) => match name_in_lines(lines(text), id) {
            Some(n) => n,
            None => fallback,
        },
        None => fallback,
    }
}

/// The id under `key` in a status text, or the unknown id.
pub open spec fn status_id(status: Option<Seq<char>>, key: Seq<char>) -> u32 {
    match status {
        Some(text) => match id_in_lines(lines(text), key) {
            Some(id) => id,
            None => unknown_id(),
        },
        None => unknown_id(),
    }
}

/// Reads the id under `key` (such as `Uid` or `Gid`) from the text of
/// `/proc/self/status`; the real (first) value of the line is taken.
pub fn read_id(status: &str, key: &str) -> (r: Option<u32>)
    ensures
        r == id_in_lines(lines(status@), key@),
{
    let cs = chars_of(status);
    let ks = chars_of(key);
    let ls = lines_of(cs.as_slice());
    let ghost views = ls@.map_values(|x: Vec<char>| x@);
    let mut i: usize = 0;
    assert(views.skip(0) =~= views);
    while i < ls.len()
        invariant
            i <= ls.len(),
            views == ls@.map_values(|x: Vec<char>| x@),
            views == lines(status@),
            ks@ == key@,
            id_in_lines(views, key@) == id_in_lines(views.skip(i as int), key@),
        decreases ls.len() - i,
    {
        let line = &ls[i];
        let ghost rest = views.skip(i as int);
        assert(rest.len() > 0);
        assert(rest[0] == line@);
        if starts_with(line.as_slice(), ks.as_slice()) {
            let after = &line.as_slice()[ks.len()..line.len()];
            assert(after@ =~= line@.skip(key@.len() as int));
            if after.len() == 0 || after[0] != ':' {
                return None;
            }
            let ws = words_of(&after[1..after.len()]);
            assert(after@.subrange(1, after@.len() as int) =~= after@.drop_first());
            let ghost wv = ws@.map_values(|x: Vec<char>| x@);
            if ws.len() == 0 {
                assert(wv.len() == 0);
                return None;
            }
            assert(wv[0] == ws@[0]@);
            let r = parse_u32(ws[0].as_slice());
            return r;
        }
        assert(rest.drop_first() =~= views.skip(i + 1));
        i = i + 1;
    }
    None
}

/// Finds the name whose numeric id (third field) is `target` in the text of a
/// colon-separated account file such as `/etc/passwd`.
pub fn resolve_name(content: &str, target: u32) -> (r: Option<String>)
    ensures
        r matches Some(n) ==> name_in_lines(lines(content@), target) == Some(n@),
        r is None ==> name_in_lines(lines(content@), target) is None,
{
    let cs = chars_of(content);
    let ls = lines_of(cs.as_slice());
    let ghost views = ls@.map_values(|x: Vec<char>| x@);
    let mut i: usize = 0;
    assert(views.skip(0) =~= views);
    while i < ls.len()
        invariant
            i <= ls.len(),
            views == ls@.map_values(|x: Vec<char>| x@),
            views == lines(content@),
            name_in_lines(views, target) == name_in_lines(views.skip(i as int), target),
        decreases ls.len() - i,
    {
        let ghost rest = views.skip(i as int);
        assert(rest.len() > 0);
        assert(rest[0] == ls@[i as int]@);
        let fs = fields_of(ls[i].as_slice(), ':');
        let ghost fv = fs@.map_values(|x: Vec<char>| x@);
        assert(fv.len() == fs.len());
        if fs.len() >= 3 {
            assert(fv[2] == fs@[2]@);
            if parse_u32(fs[2].as_slice()) == Some(target) {
                assert(fv[0] == fs@[0]@);
                return Some(string_of(fs[0].as_slice()));
            }
        }
        assert(rest.drop_first() =~= views.skip(i + 1));
        i = i + 1;
    }
    None
}

impl CommandManager {
    /// A manager for the detected package manager, or for Pacman when none
    /// was detected.
    pub fn new(detected: Option<PackageManager>) -> (cm: CommandManager)
        ensures
            cm.package_manager == (match detected {
                Some(d) => d,
                None => PackageManager::Pacman,
            }),
    {
        CommandManager { package_manager: choose_package_manager(detected) }
    }

    /// The invocation that installs `package` without prompting: the vendor
    /// install command with its `$` filled in, run through `doas` or `sudo`,
    /// followed by `-y`. When no elevated command can be used (never one for
    /// Homebrew) there is nothing to run: that is a fatal condition, given
    /// here as the error value [`CommandError::ElevatedUnavailable`] (message
    /// "Elevated command not available") because this library does not
    /// panic; the setup scripts abort the program on it (the runner's
    /// install stage).
    pub fn install_package(&self, package: &str) -> (r: Result<Invocation, CommandError>)
        ensures
            r matches Ok(inv) ==> inv@.args == fill_placeholder_spec(
                vendor_command_spec(self.package_manager, CommandKind::Install),
                package@,
            ).push("-y"@) && (inv@.program == "doas"@ || inv@.program == "sudo"@),
            r matches Err(e) ==> e == CommandError::ElevatedUnavailable,
            self.package_manager == PackageManager::Brew ==> r == Err::<Invocation, CommandError>(
                CommandError::ElevatedUnavailable,
            ),
    {
        proof {
            lemma_install_template(self.package_manager, package@);
        }
        self.install_with(package, elevated_command(self.package_manager))
    }

    /// The invocation that installs `package` through the elevated program
    /// `elevated` (as found on the system): the vendor's install command with
    /// the package as its last argument, then `-y`. There is one exactly when
    /// there is an elevated program.
    pub fn install_with(&self, package: &str, elevated: Option<String>) -> (r: Result<
        Invocation,
        CommandError,
    >)
        ensures
            r is Ok <==> elevated is Some,
            r matches Ok(inv) ==> elevated matches Some(p) && inv@.program == p@ && inv@.args
                == vendor_command_spec(self.package_manager, CommandKind::Install).drop_last().push(
                package@,
            ).push("-y"@),
            r matches Err(e) ==> e == CommandError::ElevatedUnavailable,
    {
        proof {
            lemma_install_template(self.package_manager, package@);
        }
        let template = match vendor_command(self.package_manager, CommandKind::Install) {
            Some(t) => t,
            None => return Err(CommandError::InstallUnavailable),
        };
        match elevated {
            Some(program) => Ok(install_invocation(template, package, program)),
            None => Err(CommandError::ElevatedUnavailable),
        }
    }

    /// The program that gives elevated rights on this system (`doas` or
    /// `sudo`), if one can be used; never for Homebrew.
    pub fn elevated_program(&self) -> (r: Option<String>)
        ensures
            self.package_manager == PackageManager::Brew ==> r is None,
            r matches Some(p) ==> p@ == "doas"@ || p@ == "sudo"@,
    {
        elevated_command(self.package_manager)
    }

    /// The invocation that lists the installed packages, narrowed to
    /// `package`: the vendor list command with `package` appended.
    pub fn list_invocation(&self, package: &str) -> (r: Result<Invocation, CommandError>)
        ensures
            r matches Ok(inv) ==> (inv@.program, inv@.args) == list_invocation_spec(
                self.package_manager,
                package@,
            ),
            r is Ok,
    {
        let mut cmd = match vendor_command(self.package_manager, CommandKind::List) {
            Some(c) => c,
            None => return Err(CommandError::ListUnavailable),
        };
        let ghost base = texts(cmd@);
        cmd.push(owned(package));
        assert(texts(cmd@) =~= base.push(package@));
        let ghost full = texts(cmd@);
        let rest = cmd.split_off(1);
        assert(texts(rest@) =~= full.drop_first());
        let program = cmd.pop().unwrap();
        Ok(Invocation { program, args: rest })
    }

    /// Whether the printout of the list command names `package`, as the
    /// vendor's list parser reads it.
    pub fn is_listed(&self, output: &str, package: &str) -> (r: bool)
        ensures
            r == listed_in(self.package_manager, output@, package@),
    {
        lists_package(self.package_manager, output, package)
    }

    /// The current user's name: `$USER` when it is set; otherwise the name
    /// that `/etc/passwd` gives the real uid of `/proc/self/status`, with uid
    /// 65534 when that cannot be read and `nobody` when no name is found.
    pub fn user(&self, env_user: Option<&str>, status: Option<&str>, passwd: Option<&str>) -> (r:
        String)
        ensures
            r@ == (match env_user {
                Some(u) => u@,
                None => account_name(
                    opt_text(passwd),
                    status_id(opt_text(status), "Uid"@),
                    "nobody"@,
                ),
            }),
    {
        match env_user {
            Some(u) => owned(u),
            None => {
                let uid = Self::id_or_unknown(status, "Uid");
                Self::name_or(passwd, uid, "nobody")
            },
        }
    }

    /// The current user's primary group name: the name that `/etc/group`
    /// gives the real gid of `/proc/self/status`, with gid 65534 when that
    /// cannot be read and `nogroup` when no name is found.
    pub fn group(&self, status: Option<&str>, group_file: Option<&str>) -> (r: String)
        ensures
            r@ == account_name(
                opt_text(group_file),
                status_id(opt_text(status), "Gid"@),
                "nogroup"@,
            ),
    {
        let gid = Self::id_or_unknown(status, "Gid");
        Self::name_or(group_file, gid, "nogroup")
    }

    fn id_or_unknown(status: Option<&str>, key: &str) -> (id: u32)
        ensures
            id == status_id(opt_text(status), key@),
    {
        match status {
            Some(text) => match read_id(text, key) {
                Some(id) => id,
                None => 65534,
            },
            None => 65534,
        }
    }

    fn name_or(file: Option<&str>, id: u32, fallback: &str) -> (n: String)
        ensures
            n@ == account_name(opt_text(file), id, fallback@),
    {
        match file {
            Some(text) => match resolve_name(text, id) {
                Some(n) => n,
                None => owned(fallback),
            },
            None => owned(fallback),
        }
    }
}

} // verus!
