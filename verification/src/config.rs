use vstd::prelude::*;
use vstd::string::StringExecFns;
use crate::text::{chars_eq, concat2, from_chars, is_ws, push_char, to_chars, trim, trim_chars, trim_end, trim_start};

verus! {

/// The settings that both tools read from the `env` file.
pub struct Config {
    pub token: String,
    pub jira_url: String,
    pub default_project: String,
    pub issue_type: String,
}

/// What reading a file gave: it was not there, reading it failed with a
/// message, or it was read.
pub enum FileRead {
    Missing,
    Failed(String),
    Read(String),
}

/// The lines of `s`: the pieces between `'\n'` characters, the last piece
/// included even when it is empty.
pub open spec fn split_lines(s: Seq<char>) -> Seq<Seq<char>>
    decreases s.len(),
{
    if s.len() == 0 {
        seq![Seq::<char>::empty()]
    } else {
        let prev = split_lines(s.drop_last());
        if s.last() == '\n' {
            prev.push(Seq::<char>::empty())
        } else {
            prev.update(prev.len() - 1, prev.last().push(s.last()))
        }
    }
}

/// The index of the first `c` in `s`, if there is one.
pub open spec fn find_char(s: Seq<char>, c: char) -> Option<nat>
    decreases s.len(),
{
    if s.len() == 0 {
        None
    } else if s[0] == c {
        Some(0)
    } else {
        match find_char(s.drop_first(), c) {
            Some(i) => Some(i + 1),
            None => None,
        }
    }
}

/// The trimmed key and trimmed value of a line of the form `key=value`,
/// split at its first `'='`; `None` for a line without `'='`.
pub open spec fn env_entry(line: Seq<char>) -> Option<(Seq<char>, Seq<char>)> {
    match find_char(line, '=') {
        Some(i) => Some((trim(line.take(i as int)), trim(line.skip(i + 1 as int)))),
        None => None,
    }
}

/// The value of the last line among `lines` whose key is `key`, or the
/// empty text when no line has that key.
pub open spec fn env_lookup(lines: Seq<Seq<char>>, key: Seq<char>) -> Seq<char>
    decreases lines.len(),
{
    if lines.len() == 0 {
        Seq::<char>::empty()
    } else {
        match env_entry(lines.last()) {
            Some(kv) if kv.0 == key => kv.1,
            _ => env_lookup(lines.drop_last(), key),
        }
    }
}

/// The value that an `env` file with text `text` gives to `key`.
pub open spec fn env_value(text: Seq<char>, key: Seq<char>) -> Seq<char> {
    env_lookup(split_lines(text), key)
}

proof fn lemma_split_lines_nonempty(s: Seq<char>)
    ensures
        split_lines(s).len() >= 1,
    decreases s.len(),
{
    if s.len() > 0 {
        lemma_split_lines_nonempty(s.drop_last());
    }
}

proof fn lemma_find_char_first(s: Seq<char>, c: char, i: int)
    requires
        0 <= i <= s.len(),
        forall|j: int| 0 <= j < i ==> s[j] != c,
    ensures
        i < s.len() && s[i] == c ==> find_char(s, c) == Some(i as nat),
        i == s.len() ==> find_char(s, c) is None,
    decreases i,
{
    if i > 0 {
        lemma_find_char_first(s.drop_first(), c, i - 1);
    }
}

/// The first index of `c` in `s`, if any.
fn find_char_exec(s: &[char], c: char) -> (res: Option<usize>)
    ensures
        match res {
            Some(i) => find_char(s@, c) == Some(i as nat) && i < s@.len(),
            None => find_char(s@, c) is None,
        },
{
    let n = s.len();
    for i in 0..n
        invariant
            n == s@.len(),
            forall|j: int| 0 <= j < i ==> s@[j] != c,
    {
        if s[i] == c {
            proof {
                lemma_find_char_first(s@, c, i as int);
            }
            return Some(i);
        }
    }
    proof {
        lemma_find_char_first(s@, c, n as int);
    }
    None
}

fn subrange_chars(s: &[char], from: usize, to: usize) -> (res: Vec<char>)
    requires
        from <= to <= s@.len(),
    ensures
        res@ == s@.subrange(from as int, to as int),
{
    let mut out: Vec<char> = Vec::new();
    let mut k = from;
    while k < to
        invariant
            from <= k <= to <= s@.len(),
            out@ == s@.subrange(from as int, k as int),
        decreases to - k,
    {
        out.push(s[k]);
        assert(s@.subrange(from as int, k + 1) =~= s@.subrange(from as int, k as int).push(
            s@[k as int],
        ));
        k = k + 1;
    }
    out
}

/// The key and value of one line of an `env` file.
fn line_entry(line: &[char]) -> (res: Option<(Vec<char>, Vec<char>)>)
    ensures
        match res {
            Some(kv) => env_entry(line@) == Some((kv.0@, kv.1@)),
            None => env_entry(line@) is None,
        },
{
    match find_char_exec(line, '=') {
        Some(i) => {
            let len = line.len();
            assert(i < len);
            let k = subrange_chars(line, 0, i);
            let v = subrange_chars(line, i + 1, len);
            assert(k@ =~= line@.take(i as int));
            assert(v@ =~= line@.skip(i + 1 as int));
            Some((trim_chars(&k), trim_chars(&v)))
        },
        None => None,
    }
}

/// The value that the `env` file text `text` gives to `key`.
fn env_value_exec(text: &[char], key: &[char]) -> (res: Vec<char>)
    ensures
        res@ == env_value(text@, key@),
{
    let n = text.len();
    let mut value: Vec<char> = Vec::new();
    let mut line_start: usize = 0;
    let ghost mut done: Seq<Seq<char>> = Seq::empty();
    assert(text@.take(0) =~= Seq::<char>::empty());
    assert(text@.subrange(0, 0) =~= Seq::<char>::empty());
    for i in 0..n
        invariant
            n == text@.len(),
            line_start <= i,
            split_lines(text@.take(i as int)) == done.push(text@.subrange(line_start as int, i as int)),
            value@ == env_lookup(done, key@),
    {
        let ghost prev = text@.take(i as int);
        assert(text@.take(i + 1).drop_last() =~= prev);
        if text[i] == '\n' {
            let line = subrange_chars(text, line_start, i);
            if let Some(kv) = line_entry(&line) {
                if chars_eq(&kv.0, key) {
                    value = kv.1;
                }
            }
            proof {
                let new_done = done.push(text@.subrange(line_start as int, i as int));
                assert(new_done.drop_last() =~= done);
                done = new_done;
            }
            line_start = i + 1;
            assert(text@.subrange(line_start as int, i + 1) =~= Seq::<char>::empty());
        } else {
            assert(text@.subrange(line_start as int, i + 1) =~= text@.subrange(line_start as int, i as int).push(text@[i as int]));
            assert(done.push(text@.subrange(line_start as int, i as int)).update(
                done.len() as int,
                text@.subrange(line_start as int, i + 1),
            ) =~= done.push(text@.subrange(line_start as int, i + 1)));
        }
    }
    assert(text@.take(n as int) =~= text@);
    let line = subrange_chars(text, line_start, n);
    if let Some(kv) = line_entry(&line) {
        if chars_eq(&kv.0, key) {
            value = kv.1;
        }
    }
    proof {
        let all = done.push(text@.subrange(line_start as int, n as int));
        assert(all.drop_last() =~= done);
    }
    value
}

/// Reads the settings out of the text of an `env` file: each line
/// `KEY=value` sets `KEY`, the last such line wins, and a key that no line
/// sets is empty.
pub fn parse_env(contents: &str) -> (res: Config)
    ensures
        res.token@ == env_value(contents@, "TOKEN"@),
        res.jira_url@ == env_value(contents@, "JIRA_URL"@),
        res.default_project@ == env_value(contents@, "DEFAULT_PROJECT"@),
        res.issue_type@ == env_value(contents@, "ISSUE_TYPE"@),
{
    let text = to_chars(contents);
    let token = env_value_exec(&text, &to_chars("TOKEN"));
    let jira_url = env_value_exec(&text, &to_chars("JIRA_URL"));
    let default_project = env_value_exec(&text, &to_chars("DEFAULT_PROJECT"));
    let issue_type = env_value_exec(&text, &to_chars("ISSUE_TYPE"));
    Config {
        token: from_chars(&token),
        jira_url: from_chars(&jira_url),
        default_project: from_chars(&default_project),
        issue_type: from_chars(&issue_type),
    }
}

/// One line `key=value` of an `env` file.
pub open spec fn env_line(key: Seq<char>, value: Seq<char>) -> Seq<char> {
    key + seq!['='] + value
}

/// The text that the configuration setup writes to the `env` file.
pub open spec fn env_file_text(
    token: Seq<char>,
    jira_url: Seq<char>,
    project: Seq<char>,
    issue_type: Seq<char>,
) -> Seq<char> {
    env_line("TOKEN"@, token) + seq!['\n'] + env_line("JIRA_URL"@, jira_url) + seq!['\n']
        + env_line("DEFAULT_PROJECT"@, project) + seq!['\n'] + env_line("ISSUE_TYPE"@, issue_type)
        + seq!['\n']
}

/// Appends `key=value` and a line break to `out`.
fn push_env_line(out: &mut String, key: &str, value: &str)
    ensures
        final(out)@ == old(out)@ + env_line(key@, value@) + seq!['\n'],
{
    out.append(key);
    push_char(out, '=');
    out.append(value);
    push_char(out, '\n');
    assert(final(out)@ =~= old(out)@ + env_line(key@, value@) + seq!['\n']);
}

/// The text of the `env` file that holds `config`: one `KEY=value` line per
/// setting, in the order `TOKEN`, `JIRA_URL`, `DEFAULT_PROJECT`,
/// `ISSUE_TYPE`.
pub fn render_env_file(config: &Config) -> (res: String)
    ensures
        res@ == env_file_text(
            config.token@,
            config.jira_url@,
            config.default_project@,
            config.issue_type@,
        ),
{
    let mut out = String::new();
    push_env_line(&mut out, "TOKEN", config.token.as_str());
    push_env_line(&mut out, "JIRA_URL", config.jira_url.as_str());
    push_env_line(&mut out, "DEFAULT_PROJECT", config.default_project.as_str());
    push_env_line(&mut out, "ISSUE_TYPE", config.issue_type.as_str());
    assert(out@ =~= env_file_text(
        config.token@,
        config.jira_url@,
        config.default_project@,
        config.issue_type@,
    ));
    out
}

/// A value that the `env` file keeps as it is: one line, with no whitespace
/// at either end (what the setup prompt hands over is always such a value).
pub open spec fn clean_value(v: Seq<char>) -> bool {
    &&& !v.contains('\n')
    &&& trim(v) == v
}

proof fn lemma_split_lines_append(a: Seq<char>, b: Seq<char>)
    ensures
        split_lines(a + seq!['\n'] + b) == split_lines(a) + split_lines(b),
    decreases b.len(),
{
    lemma_split_lines_nonempty(b);
    if b.len() == 0 {
        assert((a + seq!['\n'] + b).drop_last() =~= a);
        assert(a + seq!['\n'] + b =~= a + seq!['\n']);
        assert(split_lines(a).push(Seq::<char>::empty()) =~= split_lines(a) + seq![
            Seq::<char>::empty(),
        ]);
    } else {
        let b2 = b.drop_last();
        lemma_split_lines_append(a, b2);
        lemma_split_lines_nonempty(b2);
        lemma_split_lines_nonempty(a);
        let whole = a + seq!['\n'] + b;
        assert(whole.drop_last() =~= a + seq!['\n'] + b2);
        assert(whole.last() == b.last());
        let sa = split_lines(a);
        let sb2 = split_lines(b2);
        if b.last() == '\n' {
            assert((sa + sb2).push(Seq::<char>::empty()) =~= sa + sb2.push(Seq::<char>::empty()));
        } else {
            let upd = sb2.last().push(b.last());
            assert((sa + sb2).last() == sb2.last());
            assert((sa + sb2).update((sa + sb2).len() - 1, upd) =~= sa + sb2.update(
                sb2.len() - 1,
                upd,
            ));
        }
    }
}

proof fn lemma_split_lines_single(s: Seq<char>)
    requires
        !s.contains('\n'),
    ensures
        split_lines(s) == seq![s],
    decreases s.len(),
{
    if s.len() > 0 {
        let s2 = s.drop_last();
        assert(!s2.contains('\n')) by {
            if s2.contains('\n') {
                let i = choose|i: int| 0 <= i < s2.len() && s2[i] == '\n';
                assert(s[i] == '\n');
            }
        }
        lemma_split_lines_single(s2);
        assert(s[s.len() - 1] != '\n');
        assert(s2.push(s.last()) =~= s);
        assert(seq![s2].update(0, s2.push(s.last())) =~= seq![s]);
    } else {
        assert(s =~= Seq::<char>::empty());
    }
}

proof fn lemma_trim_plain(s: Seq<char>)
    requires
        forall|i: int| 0 <= i < s.len() ==> !is_ws(#[trigger] s[i]),
    ensures
        trim(s) == s,
{
    assert(trim_start(s) == s);
    assert(trim_end(s) == s);
}

proof fn lemma_env_entry_of_line(key: Seq<char>, value: Seq<char>)
    requires
        forall|i: int| 0 <= i < key.len() ==> key[i] != '=',
    ensures
        env_entry(env_line(key, value)) == Some((trim(key), trim(value))),
{
    let line = env_line(key, value);
    lemma_find_char_first(line, '=', key.len() as int);
    assert(line.take(key.len() as int) =~= key);
    assert(line.skip(key.len() + 1 as int) =~= value);
}

proof fn lemma_line_single(key: Seq<char>, value: Seq<char>)
    requires
        forall|i: int| 0 <= i < key.len() ==> key[i] != '\n',
        !value.contains('\n'),
    ensures
        split_lines(env_line(key, value)) == seq![env_line(key, value)],
{
    let line = env_line(key, value);
    assert(!line.contains('\n')) by {
        if line.contains('\n') {
            let i = choose|i: int| 0 <= i < line.len() && line[i] == '\n';
            if i > key.len() {
                assert(value[i - key.len() - 1] == '\n');
            }
        }
    }
    lemma_split_lines_single(line);
}

/// What a read gives back of a write: the text that `render_env_file` writes
/// for settings that are clean values gives each setting back to
/// `parse_env`.
pub proof fn env_file_round_trip(
    token: Seq<char>,
    jira_url: Seq<char>,
    project: Seq<char>,
    issue_type: Seq<char>,
)
    requires
        clean_value(token),
        clean_value(jira_url),
        clean_value(project),
        clean_value(issue_type),
    ensures
        env_value(env_file_text(token, jira_url, project, issue_type), "TOKEN"@) == token,
        env_value(env_file_text(token, jira_url, project, issue_type), "JIRA_URL"@) == jira_url,
        env_value(env_file_text(token, jira_url, project, issue_type), "DEFAULT_PROJECT"@)
            == project,
        env_value(env_file_text(token, jira_url, project, issue_type), "ISSUE_TYPE"@)
            == issue_type,
{
    reveal_strlit("TOKEN");
    reveal_strlit("JIRA_URL");
    reveal_strlit("DEFAULT_PROJECT");
    reveal_strlit("ISSUE_TYPE");
    let k1 = "TOKEN"@;
    let k2 = "JIRA_URL"@;
    let k3 = "DEFAULT_PROJECT"@;
    let k4 = "ISSUE_TYPE"@;
    let l1 = env_line(k1, token);
    let l2 = env_line(k2, jira_url);
    let l3 = env_line(k3, project);
    let l4 = env_line(k4, issue_type);
    let nl = seq!['\n'];
    let e = Seq::<char>::empty();
    lemma_line_single(k1, token);
    lemma_line_single(k2, jira_url);
    lemma_line_single(k3, project);
    lemma_line_single(k4, issue_type);
    lemma_split_lines_append(l4, e);
    assert(l4 + nl + e =~= l4 + nl);
    lemma_split_lines_append(l3, l4 + nl);
    lemma_split_lines_append(l2, l3 + nl + (l4 + nl));
    lemma_split_lines_append(l1, l2 + nl + (l3 + nl + (l4 + nl)));
    let text = env_file_text(token, jira_url, project, issue_type);
    assert(text =~= l1 + nl + (l2 + nl + (l3 + nl + (l4 + nl))));
    let lines = split_lines(text);
    assert(lines =~= seq![l1, l2, l3, l4, e]);
    lemma_trim_plain(k1);
    lemma_trim_plain(k2);
    lemma_trim_plain(k3);
    lemma_trim_plain(k4);
    lemma_env_entry_of_line(k1, token);
    lemma_env_entry_of_line(k2, jira_url);
    lemma_env_entry_of_line(k3, project);
    lemma_env_entry_of_line(k4, issue_type);
    assert(find_char(e, '=') is None);
    assert(lines.drop_last() =~= seq![l1, l2, l3, l4]);
    assert(seq![l1, l2, l3, l4].drop_last() =~= seq![l1, l2, l3]);
    assert(seq![l1, l2, l3].drop_last() =~= seq![l1, l2]);
    assert(seq![l1, l2].drop_last() =~= seq![l1]);
    assert(seq![l1].drop_last() =~= Seq::<Seq<char>>::empty());
    reveal_with_fuel(env_lookup, 6);
}

/// Whether `config` holds the settings that the `env` file text `text` gives.
pub open spec fn parsed_from(config: Config, text: Seq<char>) -> bool {
    &&& config.token@ == env_value(text, "TOKEN"@)
    &&& config.jira_url@ == env_value(text, "JIRA_URL"@)
    &&& config.default_project@ == env_value(text, "DEFAULT_PROJECT"@)
    &&& config.issue_type@ == env_value(text, "ISSUE_TYPE"@)
}

impl Config {
    /// The settings of the terminal interface, from what reading the `env`
    /// file gave: an error when the file is missing or unreadable.
    pub fn load(read: FileRead) -> (res: Result<Config, String>)
        ensures
            match read {
                FileRead::Missing => res matches Err(e) && e@
                    == "Config file not found. Please run 'jira init' first."@,
                FileRead::Failed(m) => res matches Err(e) && e@ == "Failed to read config file: "@
                    + m@,
                FileRead::Read(text) => res matches Ok(c) && parsed_from(c, text@),
            },
    {
        match read {
            FileRead::Missing => Err(
                String::from_str("Config file not found. Please run 'jira init' first."),
            ),
            FileRead::Failed(m) => Err(concat2("Failed to read config file: ", m.as_str())),
            FileRead::Read(text) => Ok(parse_env(text.as_str())),
        }
    }
}

/// The settings of the command-line tool, when the `env` file could be read.
pub fn load_config(read: FileRead) -> (res: Option<Config>)
    ensures
        match read {
            FileRead::Read(text) => res matches Some(c) && parsed_from(c, text@),
            _ => res is None,
        },
{
    match read {
        FileRead::Read(text) => Some(parse_env(text.as_str())),
        _ => None,
    }
}

/// The settings of the command-line tool when an `env` file exists: `None`
/// when it is missing (the setup then has to run), the read error when it
/// could not be read.
pub fn existing_config(read: FileRead) -> (res: Option<Result<Config, String>>)
    ensures
        match read {
            FileRead::Missing => res is None,
            FileRead::Failed(m) => res matches Some(Err(e)) && e@ == m@,
            FileRead::Read(text) => res matches Some(Ok(c)) && parsed_from(c, text@),
        },
{
    match read {
        FileRead::Missing => None,
        FileRead::Failed(m) => Some(Err(m)),
        FileRead::Read(text) => Some(Ok(parse_env(text.as_str()))),
    }
}

/// An answer to a setup prompt: the input without surrounding whitespace,
/// which must not be empty.
pub fn validate_prompt_input(label: &str, input: &str) -> (res: Result<String, String>)
    ensures
        trim(input@).len() == 0 ==> (res matches Err(e) && e@ == label@ + " cannot be empty"@),
        trim(input@).len() > 0 ==> (res matches Ok(v) && v@ == trim(input@)),
{
    let chars = to_chars(input);
    let trimmed = trim_chars(&chars);
    if trimmed.len() == 0 {
        Err(concat2(label, " cannot be empty"))
    } else {
        Ok(from_chars(&trimmed))
    }
}

} // verus!
