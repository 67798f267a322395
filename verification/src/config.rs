//! A user's configuration: where it is kept, and the database path it names.

use crate::text::{
    chars_of, lemma_replace_all_absent, lemma_replace_all_makes_no, occurs_at, occurs_in, push_str,
    replace_all, replace_chars, string_of,
};
use vstd::prelude::*;

verus! {

/// The user who logs in, as the host reports them.
#[derive(Clone, Debug, PartialEq, Eq)]
pub struct UserIdentity {
    pub uid: u32,
    pub gid: u32,
    pub home: String,
    pub name: String,
}

/// What a user has configured: the path of the database, which may hold the
/// token `$HOME` or start with `~`.
#[derive(Clone, Debug, PartialEq, Eq)]
pub struct UserConfig {
    database_path: String,
}

impl View for UserConfig {
    type V = Seq<char>;

    closed spec fn view(&self) -> Seq<char> {
        self.database_path@
    }
}

impl UserConfig {
    /// A configuration that names `database_path`.
    pub fn new(database_path: String) -> (config: UserConfig)
        ensures
            config@ == database_path@,
    {
        UserConfig { database_path }
    }

    /// The configured path, as written.
    pub fn template(&self) -> (template: &str)
        ensures
            template@ == self@,
    {
        self.database_path.as_str()
    }
}

/// `rest` below the directory `dir`: a separator is put between the two
/// unless `dir` is empty or already ends with one.
pub open spec fn join(dir: Seq<char>, rest: Seq<char>) -> Seq<char> {
    if dir.len() == 0 || dir.last() == '/' {
        dir + rest
    } else {
        dir + seq!['/'] + rest
    }
}

/// Where the configuration of the user with home directory `home` is kept.
pub open spec fn config_path_of(home: Seq<char>) -> Seq<char> {
    join(home, ".config/security/pam_keepassxc.toml"@)
}

/// `template` with each `$HOME` replaced by `home`.
pub open spec fn expand_home(template: Seq<char>, home: Seq<char>) -> Seq<char> {
    replace_all(template, "$HOME"@, home)
}

/// `text` with a leading `~` replaced by `home`.
pub open spec fn expand_tilde(text: Seq<char>, home: Seq<char>) -> Seq<char> {
    if text.len() > 0 && text[0] == '~' {
        home + text.skip(1)
    } else {
        text
    }
}

/// `text` without each separator that follows a separator: of every run of
/// `/`, one is left.
pub open spec fn collapse(text: Seq<char>) -> Seq<char>
    decreases text.len(),
{
    if text.len() == 0 {
        text
    } else {
        let before = collapse(text.drop_last());
        if text.len() >= 2 && text.last() == '/' && text[text.len() - 2] == '/' {
            before
        } else {
            before.push(text.last())
        }
    }
}

/// The database path that `template` names for a user whose home directory
/// is `home`: each `$HOME` becomes `home`, then a leading `~` becomes `home`,
/// then every run of `/` becomes one.
pub open spec fn resolve_path(home: Seq<char>, template: Seq<char>) -> Seq<char> {
    collapse(expand_tilde(expand_home(template, home), home))
}

/// `path` holds no `$HOME`, no leading `~` and no `//`.
pub open spec fn is_resolved(path: Seq<char>) -> bool {
    &&& !occurs_in(path, "$HOME"@)
    &&& !(path.len() > 0 && path[0] == '~')
    &&& !occurs_in(path, "//"@)
}

/// A home directory that begins with a separator and holds no `$`, as the
/// home directories of a system do.
pub open spec fn is_plain_home(home: Seq<char>) -> bool {
    home.len() > 0 && home[0] == '/' && !home.contains('$')
}

/// The name of this module, under which the host and the user's
/// configuration know it.
pub fn module_name() -> (name: &'static str)
    ensures
        name@ == "pam_keepassxc"@,
{
    "pam_keepassxc"
}

/// The path of the user's configuration file.
pub fn config_path(user: &UserIdentity) -> (path: String)
    ensures
        path@ == config_path_of(user.home@),
{
    let mut out = chars_of(user.home.as_str());
    if out.len() > 0 && out[out.len() - 1] != '/' {
        out.push('/');
    }
    push_str(&mut out, ".config/security/");
    push_str(&mut out, module_name());
    push_str(&mut out, ".toml");
    proof {
        reveal_strlit(".config/security/");
        reveal_strlit("pam_keepassxc");
        reveal_strlit(".toml");
        reveal_strlit(".config/security/pam_keepassxc.toml");
    }
    string_of(&out)
}

/// `text` without each separator that follows a separator.
pub fn collapse_separators(text: &Vec<char>) -> (out: Vec<char>)
    ensures
        out@ == collapse(text@),
{
    let mut out: Vec<char> = Vec::new();
    let mut at: usize = 0;
    assert(text@.take(0) == Seq::<char>::empty());
    while at < text.len()
        invariant
            at <= text.len(),
            out@ == collapse(text@.take(at as int)),
        decreases text.len() - at,
    {
        assert(text@.take(at + 1).drop_last() == text@.take(at as int));
        let c = text[at];
        if !(c == '/' && at > 0 && text[at - 1] == '/') {
            out.push(c);
        }
        at += 1;
    }
    assert(text@.take(text.len() as int) == text@);
    out
}

/// The database path that the configuration names for this user. It holds
/// no `//`; for a user whose home directory is plain it holds no `$HOME`
/// and no leading `~` either.
pub fn database_path(user: &UserIdentity, config: &UserConfig) -> (path: String)
    ensures
        path@ == resolve_path(user.home@, config@),
        !occurs_in(path@, "//"@),
        is_plain_home(user.home@) ==> is_resolved(path@),
{
    let home = chars_of(user.home.as_str());
    let template = chars_of(config.template());
    let expanded = replace_chars(&template, &chars_of("$HOME"), &home);
    let anchored = if expanded.len() > 0 && expanded[0] == '~' {
        let mut out = chars_of(user.home.as_str());
        let mut k: usize = 1;
        while k < expanded.len()
            invariant
                1 <= k <= expanded.len(),
                out@ == home@ + expanded@.subrange(1, k as int),
            decreases expanded.len() - k,
        {
            out.push(expanded[k]);
            k += 1;
        }
        out
    } else {
        expanded
    };
    let collapsed = collapse_separators(&anchored);
    proof {
        law_no_doubled_separator(user.home@, config@);
        if is_plain_home(user.home@) {
            law_plain_home_gives_resolved_path(user.home@, config@);
        }
    }
    string_of(&collapsed)
}

/// Where `//` stands: two separators side by side.
proof fn lemma_doubled_at(text: Seq<char>, at: int)
    ensures
        occurs_at(text, "//"@, at) <==> 0 <= at && at + 2 <= text.len() && text[at] == '/'
            && text[at + 1] == '/',
{
    reveal_strlit("//");
    if 0 <= at && at + 2 <= text.len() {
        let window = text.subrange(at, at + 2);
        assert(window[0] == text[at] && window[1] == text[at + 1]);
        if text[at] == '/' && text[at + 1] == '/' {
            assert(window =~= "//"@);
        }
    }
}

/// What collapsing gives begins and ends as the text does, and is no longer.
proof fn lemma_collapse_keeps_ends(text: Seq<char>)
    ensures
        collapse(text).len() <= text.len(),
        text.len() > 0 ==> collapse(text).len() > 0 && collapse(text)[0] == text[0]
            && collapse(text).last() == text.last(),
    decreases text.len(),
{
    if text.len() > 0 {
        lemma_collapse_keeps_ends(text.drop_last());
    }
}

/// Collapsing leaves no `//` behind.
proof fn lemma_collapse_leaves_none(text: Seq<char>)
    ensures
        !occurs_in(collapse(text), "//"@),
    decreases text.len(),
{
    let out = collapse(text);
    if text.len() == 0 {
        assert forall|at: int| !occurs_at(out, "//"@, at) by {
            lemma_doubled_at(out, at);
        }
    } else {
        let before = collapse(text.drop_last());
        lemma_collapse_leaves_none(text.drop_last());
        lemma_collapse_keeps_ends(text.drop_last());
        assert forall|at: int| !occurs_at(out, "//"@, at) by {
            lemma_doubled_at(out, at);
            lemma_doubled_at(before, at);
        }
    }
}

/// Collapsing changes nothing in a text that holds no `//`.
proof fn lemma_collapse_absent(text: Seq<char>)
    requires
        !occurs_in(text, "//"@),
    ensures
        collapse(text) == text,
    decreases text.len(),
{
    if text.len() > 0 {
        let shorter = text.drop_last();
        assert forall|at: int| !occurs_at(shorter, "//"@, at) by {
            lemma_doubled_at(shorter, at);
            lemma_doubled_at(text, at);
        }
        lemma_collapse_absent(shorter);
        lemma_doubled_at(text, text.len() - 2);
        assert(shorter.push(text.last()) == text);
    }
}

/// Where what collapsing gives ends with a word that holds no separator, the
/// text ends with that word.
proof fn lemma_collapse_keeps_suffix(text: Seq<char>, word: Seq<char>)
    requires
        !word.contains('/'),
        occurs_at(collapse(text), word, collapse(text).len() - word.len()),
    ensures
        occurs_at(text, word, text.len() - word.len()),
    decreases word.len(),
{
    let out = collapse(text);
    lemma_collapse_keeps_ends(text);
    if word.len() == 0 {
        assert(text.subrange(text.len() as int, text.len() as int) == word);
    } else {
        let window = out.subrange(out.len() - word.len(), out.len() as int);
        assert(window.last() == out.last());
        assert(word.contains(word.last()));
        let shorter = text.drop_last();
        let before = collapse(shorter);
        let rest = word.drop_last();
        assert(out == before.push(text.last()));
        assert(before.subrange(before.len() - rest.len(), before.len() as int) == rest) by {
            assert forall|i: int| 0 <= i < rest.len() implies before.subrange(
                before.len() - rest.len(),
                before.len() as int,
            )[i] == rest[i] by {
                assert(window[i] == word[i]);
            }
        }
        assert forall|c: char| rest.contains(c) implies word.contains(c) by {
            let i = choose|i: int| 0 <= i < rest.len() && rest[i] == c;
            assert(word[i] == c);
        }
        lemma_collapse_keeps_suffix(shorter, rest);
        assert(text.subrange(text.len() - word.len(), text.len() as int) == word) by {
            let found = shorter.subrange(shorter.len() - rest.len(), shorter.len() as int);
            assert forall|i: int| 0 <= i < word.len() implies text.subrange(
                text.len() - word.len(),
                text.len() as int,
            )[i] == word[i] by {
                if i < rest.len() {
                    assert(found[i] == rest[i]);
                }
            }
        }
    }
}

/// Collapsing does not make a word appear that holds no separator.
proof fn lemma_collapse_makes_no(text: Seq<char>, word: Seq<char>)
    requires
        word.len() > 0,
        !word.contains('/'),
        !occurs_in(text, word),
    ensures
        !occurs_in(collapse(text), word),
    decreases text.len(),
{
    let out = collapse(text);
    if text.len() > 0 {
        let shorter = text.drop_last();
        let before = collapse(shorter);
        assert forall|at: int| !occurs_at(shorter, word, at) by {
            if occurs_at(shorter, word, at) {
                assert(shorter.subrange(at, at + word.len()) == text.subrange(
                    at,
                    at + word.len(),
                ));
                assert(occurs_at(text, word, at));
            }
        }
        lemma_collapse_makes_no(shorter, word);
        assert forall|at: int| !occurs_at(out, word, at) by {
            if occurs_at(out, word, at) {
                if at + word.len() <= before.len() {
                    assert(before.subrange(at, at + word.len()) == out.subrange(
                        at,
                        at + word.len(),
                    ));
                    assert(occurs_at(before, word, at));
                } else {
                    lemma_collapse_keeps_suffix(text, word);
                }
            }
        }
    } else {
        assert forall|at: int| !occurs_at(out, word, at) by {}
    }
}

/// The database path holds no `//`, whatever the home directory and the
/// configuration.
pub proof fn law_no_doubled_separator(home: Seq<char>, template: Seq<char>)
    ensures
        !occurs_in(resolve_path(home, template), "//"@),
{
    lemma_collapse_leaves_none(expand_tilde(expand_home(template, home), home));
}

/// No `$HOME` is left in the database path of a user whose home directory
/// is plain.
pub proof fn law_no_home_token(home: Seq<char>, template: Seq<char>)
    requires
        is_plain_home(home),
    ensures
        !occurs_in(resolve_path(home, template), "$HOME"@),
{
    reveal_strlit("$HOME");
    let token = "$HOME"@;
    assert forall|c: char| token.contains(c) implies c != '/' by {
        let i = choose|i: int| 0 <= i < token.len() && token[i] == c;
    }
    let expanded = expand_home(template, home);
    lemma_replace_all_makes_no(template, token, home, token);
    let anchored = expand_tilde(expanded, home);
    assert forall|at: int| !occurs_at(anchored, token, at) by {
        if occurs_at(anchored, token, at) && anchored != expanded {
            assert(anchored.subrange(at, at + 5)[0] == '$');
            if at < home.len() {
                assert(home.contains(home[at]));
            } else {
                assert(expanded.subrange(at - home.len() + 1, at - home.len() + 6)
                    == anchored.subrange(at, at + 5));
                assert(occurs_at(expanded, token, at - home.len() + 1));
            }
        }
    }
    lemma_collapse_makes_no(anchored, token);
}

/// The database path of a user whose home directory is plain does not begin
/// with `~`.
pub proof fn law_no_leading_tilde(home: Seq<char>, template: Seq<char>)
    requires
        is_plain_home(home),
    ensures
        !(resolve_path(home, template).len() > 0 && resolve_path(home, template)[0] == '~'),
{
    lemma_collapse_keeps_ends(expand_tilde(expand_home(template, home), home));
}

/// A path that holds no `$HOME`, no leading `~` and no `//` names itself,
/// whatever the home directory.
pub proof fn law_resolved_path_is_fixed(home: Seq<char>, path: Seq<char>)
    requires
        is_resolved(path),
    ensures
        resolve_path(home, path) == path,
{
    lemma_replace_all_absent(path, "$HOME"@, home);
    lemma_collapse_absent(path);
}

/// Resolving a second time changes nothing, wherever the first result holds
/// no `$HOME` and no leading `~`.
pub proof fn law_resolve_path_idempotent(home: Seq<char>, template: Seq<char>)
    requires
        !occurs_in(resolve_path(home, template), "$HOME"@),
        !(resolve_path(home, template).len() > 0 && resolve_path(home, template)[0] == '~'),
    ensures
        resolve_path(home, resolve_path(home, template)) == resolve_path(home, template),
{
    law_no_doubled_separator(home, template);
    law_resolved_path_is_fixed(home, resolve_path(home, template));
}

/// The database path of a user whose home directory is plain holds no
/// `$HOME`, no leading `~` and no `//`, and to resolve it again changes
/// nothing.
pub proof fn law_plain_home_gives_resolved_path(home: Seq<char>, template: Seq<char>)
    requires
        is_plain_home(home),
    ensures
        is_resolved(resolve_path(home, template)),
        resolve_path(home, resolve_path(home, template)) == resolve_path(home, template),
{
    law_no_home_token(home, template);
    law_no_leading_tilde(home, template);
    law_no_doubled_separator(home, template);
    law_resolve_path_idempotent(home, template);
}

} // verus!
