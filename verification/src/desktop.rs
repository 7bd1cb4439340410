use vstd::prelude::*;

use crate::text::{replace, replaced};
use vstd::string::StringSliceAdditionalSpecFns;

verus! {

// ---------------------------------------------------------------------------------------------- //
// Paths, as the bytes that Unix paths are made of.

/// The byte of the path separator, `/`.
pub const SEPARATOR: u8 = 47;

/// `rest` appended to the path `base` as `PathBuf::push` does on Unix: an
/// absolute `rest` replaces `base`, an empty `base` gives `rest`, and a
/// separator goes between the two unless `base` ends with one.
pub open spec fn path_joined(base: Seq<u8>, rest: Seq<u8>) -> Seq<u8> {
    if rest.len() > 0 && rest[0] == SEPARATOR {
        rest
    } else if base.len() == 0 {
        rest
    } else if base.last() == SEPARATOR {
        base + rest
    } else {
        base + seq![SEPARATOR] + rest
    }
}

fn append_bytes(path: &mut Vec<u8>, bytes: &[u8])
    ensures
        final(path)@ == old(path)@ + bytes@,
{
    let n = bytes.len();
    for i in 0..n
        invariant
            n == bytes@.len(),
            path@ == old(path)@ + bytes@.take(i as int),
    {
        path.push(bytes[i]);
        assert(bytes@.take(i + 1) =~= bytes@.take(i as int).push(bytes@[i as int]));
        assert(path@ =~= old(path)@ + bytes@.take(i + 1));
    }
    assert(bytes@.take(n as int) =~= bytes@);
}

/// Appends `rest` to the path `base`.
pub fn join_path(base: &[u8], rest: &[u8]) -> (path: Vec<u8>)
    ensures
        path@ == path_joined(base@, rest@),
{
    let mut path: Vec<u8> = Vec::new();
    if rest.len() > 0 && rest[0] == SEPARATOR {
        append_bytes(&mut path, rest);
        assert(path@ =~= rest@);
        return path;
    }
    if base.len() > 0 {
        append_bytes(&mut path, base);
        if base[base.len() - 1] != SEPARATOR {
            path.push(SEPARATOR);
        }
    }
    append_bytes(&mut path, rest);
    assert(path@ =~= path_joined(base@, rest@));
    path
}

/// Why the directory for user data is unknown.
#[derive(Clone, Copy, Debug, PartialEq, Eq, Structural)]
pub enum DirError {
    /// Neither `XDG_DATA_HOME` is set to a non-empty value nor `HOME` is set.
    HomeNotSet,
}

impl DirError {
    /// What the error reports.
    pub fn message(self) -> (text: &'static str)
        ensures
            text@ == (match self {
                DirError::HomeNotSet => "resolve HOME for XDG desktop file installation"@,
            }),
    {
        match self {
            DirError::HomeNotSet => "resolve HOME for XDG desktop file installation",
        }
    }
}

/// The directory for user data: `XDG_DATA_HOME` when it is set and not empty,
/// else `.local/share` under `HOME`; none when neither is known.
pub open spec fn data_dir_of(xdg_data_home: Option<Seq<u8>>, home: Option<Seq<u8>>) -> Option<Seq<u8>> {
    match xdg_data_home {
        Some(dir) if dir.len() > 0 => Some(dir),
        _ => match home {
            Some(home) => Some(path_joined(home, ".local/share".spec_bytes())),
            None => None,
        },
    }
}

/// The view of an optional borrowed byte string.
pub open spec fn opt_view(value: Option<&[u8]>) -> Option<Seq<u8>> {
    match value {
        Some(s) => Some(s@),
        None => None,
    }
}

/// The directory for user data, from the values of `XDG_DATA_HOME` and `HOME`.
pub fn user_data_dir(xdg_data_home: Option<&[u8]>, home: Option<&[u8]>) -> (dir: Result<Vec<u8>, DirError>)
    ensures
        dir is Ok == data_dir_of(opt_view(xdg_data_home), opt_view(home)) is Some,
        dir matches Ok(d) ==> d@ == data_dir_of(opt_view(xdg_data_home), opt_view(home))->0,
        dir matches Err(e) ==> e == DirError::HomeNotSet,
{
    if let Some(data_home) = xdg_data_home {
        if data_home.len() > 0 {
            let mut dir: Vec<u8> = Vec::new();
            append_bytes(&mut dir, data_home);
            assert(dir@ =~= data_home@);
            return Ok(dir);
        }
    }
    match home {
        Some(home) => Ok(join_path(home, ".local/share".as_bytes())),
        None => Err(DirError::HomeNotSet),
    }
}

/// The directory where desktop entries go: `applications` under the
/// directory for user data.
pub fn user_applications_dir(xdg_data_home: Option<&[u8]>, home: Option<&[u8]>) -> (dir: Result<Vec<u8>, DirError>)
    ensures
        dir is Ok == data_dir_of(opt_view(xdg_data_home), opt_view(home)) is Some,
        dir matches Ok(d) ==> d@ == path_joined(
            data_dir_of(opt_view(xdg_data_home), opt_view(home))->0,
            "applications".spec_bytes(),
        ),
        dir matches Err(e) ==> e == DirError::HomeNotSet,
{
    let data_dir = user_data_dir(xdg_data_home, home)?;
    Ok(join_path(data_dir.as_slice(), "applications".as_bytes()))
}

/// The directory where the desktop icon goes, under the directory for user data.
pub fn user_icons_dir(xdg_data_home: Option<&[u8]>, home: Option<&[u8]>) -> (dir: Result<Vec<u8>, DirError>)
    ensures
        dir is Ok == data_dir_of(opt_view(xdg_data_home), opt_view(home)) is Some,
        dir matches Ok(d) ==> d@ == path_joined(
            data_dir_of(opt_view(xdg_data_home), opt_view(home))->0,
            "icons/hicolor/512x512/apps".spec_bytes(),
        ),
        dir matches Err(e) ==> e == DirError::HomeNotSet,
{
    let data_dir = user_data_dir(xdg_data_home, home)?;
    Ok(join_path(data_dir.as_slice(), "icons/hicolor/512x512/apps".as_bytes()))
}

// ---------------------------------------------------------------------------------------------- //
// The desktop entry.

/// Each backslash and double quote preceded by a backslash.
pub open spec fn escaped(s: Seq<char>) -> Seq<char>
    decreases s.len(),
{
    if s.len() == 0 {
        seq![]
    } else {
        let c = s[0];
        let head = if c == '\\' {
            seq!['\\', '\\']
        } else if c == '"' {
            seq!['\\', '"']
        } else {
            seq![c]
        };
        head + escaped(s.drop_first())
    }
}

/// Undoes `escaped`: a backslash stands for the character after it.
pub open spec fn unescaped(t: Seq<char>) -> Seq<char>
    decreases t.len(),
{
    if t.len() == 0 {
        seq![]
    } else if t[0] == '\\' && t.len() >= 2 {
        seq![t[1]] + unescaped(t.skip(2))
    } else {
        seq![t[0]] + unescaped(t.drop_first())
    }
}

/// The value of the `Exec` key for an executable path: the path, escaped,
/// between double quotes.
pub open spec fn exec_value_of(executable: Seq<char>) -> Seq<char> {
    seq!['"'] + escaped(executable) + seq!['"']
}

/// Each `c` in `s` written as `by`.
pub open spec fn char_replaced(s: Seq<char>, c: char, by: Seq<char>) -> Seq<char>
    decreases s.len(),
{
    if s.len() == 0 {
        seq![]
    } else {
        (if s[0] == c {
            by
        } else {
            seq![s[0]]
        }) + char_replaced(s.drop_first(), c, by)
    }
}

proof fn lemma_replace_one_char(s: Seq<char>, c: char, by: Seq<char>)
    ensures
        replaced(s, seq![c], by) == char_replaced(s, c, by),
    decreases s.len(),
{
    if s.len() > 0 {
        lemma_replace_one_char(s.drop_first(), c, by);
        assert(s.skip(1) =~= s.drop_first());
        if s[0] == c {
            assert(s.take(1) =~= seq![c]);
        } else {
            assert(s.take(1) != seq![c]) by {
                assert(s.take(1)[0] != seq![c][0]);
            }
        }
    }
}

proof fn lemma_char_replaced_concat(a: Seq<char>, b: Seq<char>, c: char, by: Seq<char>)
    ensures
        char_replaced(a + b, c, by) == char_replaced(a, c, by) + char_replaced(b, c, by),
    decreases a.len(),
{
    if a.len() == 0 {
        assert(a + b =~= b);
    } else {
        lemma_char_replaced_concat(a.drop_first(), b, c, by);
        assert((a + b).drop_first() =~= a.drop_first() + b);
        assert((a + b)[0] == a[0]);
    }
}

proof fn lemma_escape_by_replacing(s: Seq<char>)
    ensures
        char_replaced(char_replaced(s, '\\', seq!['\\', '\\']), '"', seq!['\\', '"']) == escaped(s),
    decreases s.len(),
{
    if s.len() > 0 {
        lemma_escape_by_replacing(s.drop_first());
        let head = if s[0] == '\\' {
            seq!['\\', '\\']
        } else {
            seq![s[0]]
        };
        let first = char_replaced(s, '\\', seq!['\\', '\\']);
        assert(first == head + char_replaced(s.drop_first(), '\\', seq!['\\', '\\']));
        lemma_char_replaced_concat(head, char_replaced(s.drop_first(), '\\', seq!['\\', '\\']), '"', seq!['\\', '"']);
        if s[0] == '\\' {
            assert(char_replaced(head, '"', seq!['\\', '"']) =~= seq!['\\', '\\']) by {
                reveal_with_fuel(char_replaced, 3);
            }
        } else if s[0] == '"' {
            assert(char_replaced(head, '"', seq!['\\', '"']) =~= seq!['\\', '"']) by {
                reveal_with_fuel(char_replaced, 2);
            }
        } else {
            assert(char_replaced(head, '"', seq!['\\', '"']) =~= seq![s[0]]) by {
                reveal_with_fuel(char_replaced, 2);
            }
        }
    }
}

/// Reading the `Exec` value back gives the executable path: unquoting and
/// unescaping undo what the value added.
pub proof fn lemma_exec_value_round_trip(executable: Seq<char>)
    ensures
        unescaped(exec_value_of(executable).subrange(1, exec_value_of(executable).len() - 1))
            == executable,
{
    let body = escaped(executable);
    assert(exec_value_of(executable).subrange(1, exec_value_of(executable).len() - 1) =~= body);
    lemma_unescape_escaped(executable);
}

proof fn lemma_unescape_escaped(s: Seq<char>)
    ensures
        unescaped(escaped(s)) == s,
    decreases s.len(),
{
    if s.len() > 0 {
        lemma_unescape_escaped(s.drop_first());
        let rest = escaped(s.drop_first());
        let t = escaped(s);
        if s[0] == '\\' || s[0] == '"' {
            assert(t.skip(2) =~= rest);
            assert(unescaped(t) == seq![s[0]] + unescaped(rest));
        } else {
            assert(t.drop_first() =~= rest);
            assert(unescaped(t) == seq![s[0]] + unescaped(rest));
        }
        assert(seq![s[0]] + s.drop_first() =~= s);
    }
}

/// The value of the `Exec` key that starts `executable`: the path with each
/// backslash and double quote escaped, between double quotes.
pub fn desktop_exec_value(executable: &str) -> (value: String)
    ensures
        value@ == exec_value_of(executable@),
{
    proof {
        reveal_strlit("\\");
        reveal_strlit("\\\\");
        reveal_strlit("\"");
        reveal_strlit("\\\"");
    }
    let backslashes = replace(executable, "\\", "\\\\");
    let escaped_value = replace(backslashes.as_str(), "\"", "\\\"");
    proof {
        lemma_replace_one_char(executable@, '\\', seq!['\\', '\\']);
        lemma_replace_one_char(backslashes@, '"', seq!['\\', '"']);
        lemma_escape_by_replacing(executable@);
        assert("\\"@ =~= seq!['\\']);
        assert("\\\\"@ =~= seq!['\\', '\\']);
        assert("\""@ =~= seq!['"']);
        assert("\\\""@ =~= seq!['\\', '"']);
        assert(backslashes@ == char_replaced(executable@, '\\', seq!['\\', '\\']));
        assert(escaped_value@ == escaped(executable@));
    }
    let mut value = "\"".to_owned();
    value.append(escaped_value.as_str());
    value.append("\"");
    value
}

/// The desktop entry for this program: the template with its `Exec` line
/// pointing at `exec_value` and its `Icon` line at `icon_path`.
pub open spec fn desktop_entry_of(template: Seq<char>, exec_value: Seq<char>, icon_path: Seq<char>) -> Seq<char> {
    let with_exec = replaced(template, "Exec=hotkey-hold-app"@, "Exec="@ + exec_value);
    replaced(with_exec, "Icon=dev.gpui.HotkeyHoldApp"@, "Icon="@ + icon_path)
}

/// Writes the desktop entry from its template.
pub fn desktop_entry_text(template: &str, exec_value: &str, icon_path: &str) -> (entry: String)
    ensures
        entry@ == desktop_entry_of(template@, exec_value@, icon_path@),
{
    proof {
        reveal_strlit("Exec=hotkey-hold-app");
        reveal_strlit("Icon=dev.gpui.HotkeyHoldApp");
    }
    let mut exec_line = "Exec=".to_owned();
    exec_line.append(exec_value);
    let with_exec = replace(template, "Exec=hotkey-hold-app", exec_line.as_str());
    let mut icon_line = "Icon=".to_owned();
    icon_line.append(icon_path);
    replace(with_exec.as_str(), "Icon=dev.gpui.HotkeyHoldApp", icon_line.as_str())
}

// ---------------------------------------------------------------------------------------------- //
// Installing files.

/// What reading an installed file gave.
#[derive(Debug)]
pub enum Existing<T> {
    /// The file holds this.
    Found(T),
    /// There is no such file.
    Missing,
    /// The file could not be read.
    Unreadable,
}

/// What to do about an installed file.
#[derive(Clone, Copy, Debug, PartialEq, Eq, Structural)]
pub enum InstallAction {
    /// It holds what it should: leave it.
    Keep,
    /// It is missing or stale: write it.
    Write,
    /// It could not be read: report the error.
    Fail,
}

/// Keep a file that holds `wanted`, write one that is missing or differs,
/// and fail on one that could not be read.
pub open spec fn install_action_of(existing: Existing<Seq<char>>, wanted: Seq<char>) -> InstallAction {
    match existing {
        Existing::Found(content) => if content == wanted {
            InstallAction::Keep
        } else {
            InstallAction::Write
        },
        Existing::Missing => InstallAction::Write,
        Existing::Unreadable => InstallAction::Fail,
    }
}

/// The same for a file of bytes.
pub open spec fn install_bytes_action_of(existing: Existing<Seq<u8>>, wanted: Seq<u8>) -> InstallAction {
    match existing {
        Existing::Found(content) => if content == wanted {
            InstallAction::Keep
        } else {
            InstallAction::Write
        },
        Existing::Missing => InstallAction::Write,
        Existing::Unreadable => InstallAction::Fail,
    }
}

/// Installing is idempotent: once a file holds what it should, the next run
/// leaves it, and a run that finds it missing or stale writes it.
pub proof fn lemma_install_idempotent(existing: Existing<Seq<char>>, wanted: Seq<char>)
    ensures
        install_action_of(Existing::Found(wanted), wanted) == InstallAction::Keep,
        install_action_of(Existing::Missing, wanted) == InstallAction::Write,
        existing matches Existing::Found(content) && content != wanted ==> install_action_of(existing, wanted)
            == InstallAction::Write,
{
}

/// What to do about the installed desktop entry.
pub fn plan_entry_install(existing: &Existing<String>, wanted: &String) -> (action: InstallAction)
    ensures
        action == install_action_of(
            match existing {
                Existing::Found(s) => Existing::Found(s@),
                Existing::Missing => Existing::Missing,
                Existing::Unreadable => Existing::Unreadable,
            },
            wanted@,
        ),
{
    match existing {
        Existing::Found(content) => if *content == *wanted {
            InstallAction::Keep
        } else {
            InstallAction::Write
        },
        Existing::Missing => InstallAction::Write,
        Existing::Unreadable => InstallAction::Fail,
    }
}

/// What to do about the installed icon.
pub fn plan_icon_install(existing: &Existing<Vec<u8>>, wanted: &Vec<u8>) -> (action: InstallAction)
    ensures
        action == install_bytes_action_of(
            match existing {
                Existing::Found(b) => Existing::Found(b@),
                Existing::Missing => Existing::Missing,
                Existing::Unreadable => Existing::Unreadable,
            },
            wanted@,
        ),
{
    match existing {
        Existing::Found(content) => if same_bytes(content, wanted) {
            InstallAction::Keep
        } else {
            InstallAction::Write
        },
        Existing::Missing => InstallAction::Write,
        Existing::Unreadable => InstallAction::Fail,
    }
}

fn same_bytes(a: &Vec<u8>, b: &Vec<u8>) -> (same: bool)
    ensures
        same == (a@ == b@),
{
    if a.len() != b.len() {
        return false;
    }
    let n = a.len();
    for i in 0..n
        invariant
            n == a@.len(),
            n == b@.len(),
            forall|j: int| 0 <= j < i ==> a@[j] == b@[j],
    {
        if a[i] != b[i] {
            return false;
        }
    }
    assert(a@ =~= b@);
    true
}

} // verus!
