//! The SQL scripts that bring a database from one version to the next: which files are scripts, in
//! what order they run, and which of them are still to run.

use vstd::prelude::*;
use crate::error::{ErrorModel, PrivchatSDKError};
use crate::text;
use crate::text::{chars_of, find_first, same_text, text_before, text_ends_with, text_of};

verus! {

/// A script and the version that it brings the database to.
#[derive(Debug)]
pub struct Script {
    pub version: String,
    pub sql: String,
}

/// What a [`Script`] holds.
pub struct ScriptModel {
    pub version: Seq<char>,
    pub sql: Seq<char>,
}

impl View for Script {
    type V = ScriptModel;

    open spec fn view(&self) -> ScriptModel {
        ScriptModel { version: self.version@, sql: self.sql@ }
    }
}

impl Clone for Script {
    fn clone(&self) -> (r: Self)
        ensures
            r == *self,
    {
        Script { version: self.version.clone(), sql: self.sql.clone() }
    }
}

/// A file of the directory that holds the scripts.
#[derive(Debug)]
pub struct ScriptFile {
    pub name: String,
    pub sql: String,
}

/// Which versions a script may have.
#[derive(Debug, Clone, Copy, PartialEq, Eq, Structural)]
pub enum VersionForm {
    /// A time stamp of at least 14 digits, and a description after an underscore.
    Stamped,
    /// A date of 8 digits or a time of 14 digits, and nothing else.
    Dated,
}

/// The scripts of a list, in order.
pub open spec fn scripts_of(scripts: Seq<Script>) -> Seq<ScriptModel> {
    Seq::new(scripts.len(), |i: int| scripts[i]@)
}

/// A text without the suffixes at its end.
pub open spec fn without_suffix(s: Seq<char>, suffix: Seq<char>) -> Seq<char>
    decreases s.len(),
{
    if suffix.len() > 0 && text::ends_with(s, suffix) {
        without_suffix(s.take(s.len() - suffix.len()), suffix)
    } else {
        s
    }
}

/// The part of a version before its first underscore.
pub open spec fn stamp(version: Seq<char>) -> Seq<char> {
    match text::first_index_of(version, '_') {
        Some(i) => version.take(i),
        None => version,
    }
}

/// Whether a version has a form.
pub open spec fn has_form(version: Seq<char>, form: VersionForm) -> bool {
    match form {
        VersionForm::Stamped => stamp(version).len() >= 14 && text::all_digits(
            stamp(version).take(14),
        ),
        VersionForm::Dated => (version.len() == 14 || version.len() == 8) && text::all_digits(
            version,
        ),
    }
}

/// The version of the script in a file, if the file is a script.
pub open spec fn version_of_file(name: Seq<char>, form: VersionForm) -> Option<Seq<char>> {
    let version = without_suffix(name, ".sql"@);
    if text::ends_with(name, ".sql"@) && has_form(version, form) {
        Some(version)
    } else {
        None
    }
}

/// The scripts in files, by version; of two files with one version the later counts.
pub open spec fn scripts_in(files: Seq<ScriptFile>, form: VersionForm) -> Map<Seq<char>, Seq<char>>
    decreases files.len(),
{
    if files.len() == 0 {
        Map::empty()
    } else {
        let before = scripts_in(files.drop_last(), form);
        match version_of_file(files.last().name@, form) {
            Some(version) => before.insert(version, files.last().sql@),
            None => before,
        }
    }
}

/// Whether versions rise strictly.
pub open spec fn rising(scripts: Seq<Script>) -> bool {
    forall|i: int, j: int|
        0 <= i < j < scripts.len() ==> text::comes_before(
            (#[trigger] scripts[i]).version@,
            (#[trigger] scripts[j]).version@,
        )
}

/// Whether some script has a version.
pub open spec fn has_version(scripts: Seq<Script>, version: Seq<char>) -> bool {
    exists|i: int| 0 <= i < scripts.len() && (#[trigger] scripts[i]).version@ == version
}

/// Whether a list holds the scripts of `all`, each once, in the order of their versions.
pub open spec fn lists(scripts: Seq<Script>, all: Map<Seq<char>, Seq<char>>) -> bool {
    &&& rising(scripts)
    &&& forall|i: int|
        0 <= i < scripts.len() ==> all.contains_pair(
            (#[trigger] scripts[i]).version@,
            scripts[i].sql@,
        )
    &&& forall|version: Seq<char>| #[trigger]
        all.contains_key(version) ==> has_version(scripts, version)
}

/// A text without the suffixes at its end.
pub fn trim_suffix(s: &str, suffix: &str) -> (r: String)
    ensures
        r@ == without_suffix(s@, suffix@),
{
    let chars = chars_of(s);
    let word = chars_of(suffix);
    let mut end: usize = chars.len();
    proof {
        assert(s@.take(s@.len() as int) =~= s@);
        assert(s@.subrange(0, end as int) =~= s@);
    }
    while word.len() > 0 && end >= word.len() && text::holds_at(&chars, end - word.len(), &word)
        invariant
            chars@ == s@,
            word@ == suffix@,
            end <= chars@.len(),
            without_suffix(s@, suffix@) == without_suffix(s@.take(end as int), suffix@),
        decreases end,
    {
        proof {
            let before = s@.take(end as int);
            assert(before.skip(end - word@.len()) =~= s@.skip(end - word@.len()).take(
                word@.len() as int,
            ));
            assert(before.take(end - word@.len()) =~= s@.take(end - word@.len()));
        }
        end = end - word.len();
    }
    proof {
        if word@.len() > 0 && end >= word@.len() {
            assert(s@.take(end as int).skip(end - word@.len()) =~= s@.skip(
                end - word@.len(),
            ).take(word@.len() as int));
        }
        assert(s@.take(end as int) =~= s@.subrange(0, end as int));
    }
    text_of(&chars, 0, end)
}

/// The part of a version before its first underscore, which tells which of two scripts is newer.
pub fn extract_version_prefix(version: &str) -> (r: String)
    ensures
        r@ == stamp(version@),
{
    let chars = chars_of(version);
    match find_first(&chars, '_') {
        Some(i) => {
            proof {
                text::lemma_first_index_of(version@, '_');
                assert(version@.take(i as int) =~= version@.subrange(0, i as int));
            }
            text_of(&chars, 0, i)
        },
        None => version.to_owned(),
    }
}

fn digits_up_to(chars: &Vec<char>, end: usize) -> (r: bool)
    requires
        end <= chars@.len(),
    ensures
        r == text::all_digits(chars@.take(end as int)),
{
    let mut i: usize = 0;
    while i < end
        invariant
            i <= end <= chars@.len(),
            forall|j: int| 0 <= j < i ==> text::is_digit(#[trigger] chars@[j]),
        decreases end - i,
    {
        let c = chars[i];
        if !('0' <= c && c <= '9') {
            proof {
                assert(chars@.take(end as int)[i as int] == c);
            }
            return false;
        }
        i = i + 1;
    }
    true
}

/// Whether a version has a form.
pub fn is_valid_version(version: &str, form: VersionForm) -> (r: bool)
    ensures
        r == has_form(version@, form),
{
    match form {
        VersionForm::Stamped => {
            let chars = chars_of(extract_version_prefix(version).as_str());
            chars.len() >= 14 && digits_up_to(&chars, 14)
        },
        VersionForm::Dated => {
            let chars = chars_of(version);
            proof {
                assert(chars@.take(chars@.len() as int) =~= chars@);
            }
            let length: usize = chars.len();
            (length == 14 || length == 8) && digits_up_to(&chars, length)
        },
    }
}

/// The version of the script in a file, if the file is a script.
pub fn script_version(name: &str, form: VersionForm) -> (r: Option<String>)
    ensures
        match r {
            Some(version) => version_of_file(name@, form) == Some(version@),
            None => version_of_file(name@, form) is None,
        },
{
    if !text_ends_with(name, ".sql") {
        return None;
    }
    let version = trim_suffix(name, ".sql");
    if is_valid_version(version.as_str(), form) {
        Some(version)
    } else {
        None
    }
}

/// Puts a script at its place, in place of one with the same version.
fn put_script(scripts: &mut Vec<Script>, script: Script, Ghost(all): Ghost<
    Map<Seq<char>, Seq<char>>,
>)
    requires
        lists(old(scripts)@, all),
    ensures
        lists(final(scripts)@, all.insert(script.version@, script.sql@)),
{
    let ghost before = scripts@;
    let ghost version = script.version@;
    let length: usize = scripts.len();
    let mut i: usize = 0;
    while i < length && text_before(scripts[i].version.as_str(), script.version.as_str())
        invariant
            i <= length == scripts@.len(),
            scripts@ == before,
            version == script.version@,
            forall|j: int|
                0 <= j < i ==> text::comes_before((#[trigger] before[j]).version@, version),
        decreases length - i,
    {
        i = i + 1;
    }
    let found = i < length && same_text(scripts[i].version.as_str(), script.version.as_str());
    if found {
        let ghost model = script;
        scripts.set(i, script);
        proof {
            let after = scripts@;
            assert(after == before.update(i as int, model));
            assert forall|a: int, b: int| 0 <= a < b < after.len() implies text::comes_before(
                (#[trigger] after[a]).version@,
                (#[trigger] after[b]).version@,
            ) by {
                assert(text::comes_before(before[a].version@, before[b].version@));
            }
            let grown = all.insert(version, model.sql@);
            assert forall|j: int| 0 <= j < after.len() implies grown.contains_pair(
                (#[trigger] after[j]).version@,
                after[j].sql@,
            ) by {
                assert(all.contains_pair(before[j].version@, before[j].sql@));
                if j < i {
                    assert(text::comes_before(before[j].version@, version));
                    text::lemma_order_one_way(version, version);
                } else if j > i {
                    assert(text::comes_before(before[i as int].version@, before[j].version@));
                    text::lemma_order_one_way(version, version);
                }
            }
            assert forall|v: Seq<char>| #[trigger] grown.contains_key(v) implies has_version(
                after,
                v,
            ) by {
                if v == version {
                    assert(after[i as int].version@ == v);
                } else {
                    assert(all.contains_key(v));
                    let k = choose|k: int|
                        0 <= k < before.len() && (#[trigger] before[k]).version@ == v;
                    assert(after[k].version@ == v);
                }
            }
        }
    } else {
        let ghost model = script;
        scripts.insert(i, script);
        proof {
            let after = scripts@;
            assert(after == before.insert(i as int, model));
            assert forall|j: int| i <= j < before.len() implies text::comes_before(
                version,
                (#[trigger] before[j]).version@,
            ) by {
                text::lemma_order_total(version, before[i as int].version@);
                if j > i {
                    assert(text::comes_before(before[i as int].version@, before[j].version@));
                    text::lemma_order_transitive(
                        version,
                        before[i as int].version@,
                        before[j].version@,
                    );
                }
            }
            assert forall|a: int, b: int| 0 <= a < b < after.len() implies text::comes_before(
                (#[trigger] after[a]).version@,
                (#[trigger] after[b]).version@,
            ) by {
                let x = if a < i {
                    a
                } else {
                    a - 1
                };
                let y = if b < i {
                    b
                } else {
                    b - 1
                };
                if a != i {
                    assert(after[a] == before[x]);
                }
                if b != i {
                    assert(after[b] == before[y]);
                }
                if a != i && b != i {
                    assert(text::comes_before(before[x].version@, before[y].version@));
                }
            }
            let grown = all.insert(version, model.sql@);
            assert forall|j: int| 0 <= j < after.len() implies grown.contains_pair(
                (#[trigger] after[j]).version@,
                after[j].sql@,
            ) by {
                if j != i {
                    let x = if j < i {
                        j
                    } else {
                        j - 1
                    };
                    assert(after[j] == before[x]);
                    assert(all.contains_pair(before[x].version@, before[x].sql@));
                    text::lemma_order_one_way(version, version);
                }
            }
            assert forall|v: Seq<char>| #[trigger] grown.contains_key(v) implies has_version(
                after,
                v,
            ) by {
                if v == version {
                    assert(after[i as int].version@ == v);
                } else {
                    assert(all.contains_key(v));
                    let k = choose|k: int|
                        0 <= k < before.len() && (#[trigger] before[k]).version@ == v;
                    let x = if k < i {
                        k
                    } else {
                        k + 1
                    };
                    assert(after[x].version@ == v);
                }
            }
        }
    }
}

/// The scripts in the files of a directory, in the order of their versions. `none` is the error
/// where there is no script.
pub fn collect_scripts(files: &Vec<ScriptFile>, form: VersionForm, none: &str) -> (r: Result<
    Vec<Script>,
    PrivchatSDKError,
>)
    ensures
        match r {
            Ok(scripts) => lists(scripts@, scripts_in(files@, form)) && scripts@.len() > 0,
            Err(e) => scripts_in(files@, form) == Map::<Seq<char>, Seq<char>>::empty() && e@
                == ErrorModel::Database(none@),
        },
{
    let mut scripts: Vec<Script> = Vec::new();
    let length: usize = files.len();
    let mut i: usize = 0;
    proof {
        assert(files@.take(0) =~= Seq::<ScriptFile>::empty());
    }
    while i < length
        invariant
            i <= length == files@.len(),
            lists(scripts@, scripts_in(files@.take(i as int), form)),
        decreases length - i,
    {
        proof {
            assert(files@.take(i + 1).drop_last() =~= files@.take(i as int));
            assert(files@.take(i + 1).last() == files@[i as int]);
        }
        match script_version(files[i].name.as_str(), form) {
            Some(version) => {
                let script = Script { version, sql: files[i].sql.clone() };
                put_script(
                    &mut scripts,
                    script,
                    Ghost(scripts_in(files@.take(i as int), form)),
                );
            },
            None => {},
        }
        i = i + 1;
    }
    proof {
        assert(files@.take(i as int) =~= files@);
    }
    if scripts.len() == 0 {
        proof {
            let all = scripts_in(files@, form);
            assert forall|v: Seq<char>| !all.contains_key(v) by {
                if all.contains_key(v) {
                    assert(has_version(scripts@, v));
                }
            }
            assert(all =~= Map::<Seq<char>, Seq<char>>::empty());
        }
        return Err(PrivchatSDKError::Database(none.to_owned()));
    }
    Ok(scripts)
}

/// Whether a script is newer than a version.
pub open spec fn is_newer(version: Seq<char>, current: Seq<char>, form: VersionForm) -> bool {
    match form {
        VersionForm::Stamped => text::comes_before(stamp(current), stamp(version)),
        VersionForm::Dated => text::comes_before(current, version),
    }
}

/// The scripts that are newer than a version, in order.
pub open spec fn newer(
    scripts: Seq<ScriptModel>,
    current: Seq<char>,
    form: VersionForm,
) -> Seq<ScriptModel>
    decreases scripts.len(),
{
    if scripts.len() == 0 {
        Seq::empty()
    } else {
        let before = newer(scripts.drop_last(), current, form);
        if is_newer(scripts.last().version, current, form) {
            before.push(scripts.last())
        } else {
            before
        }
    }
}

/// The scripts that are still to run on a database of the version `current`, in order.
pub fn pending_scripts(scripts: &Vec<Script>, current: &str, form: VersionForm) -> (r: Vec<Script>)
    ensures
        scripts_of(r@) == newer(scripts_of(scripts@), current@, form),
{
    let ghost all = scripts_of(scripts@);
    let mut out: Vec<Script> = Vec::new();
    let length: usize = scripts.len();
    let mut i: usize = 0;
    proof {
        assert(all.take(0) =~= Seq::<ScriptModel>::empty());
        assert(scripts_of(out@) =~= Seq::<ScriptModel>::empty());
    }
    while i < length
        invariant
            i <= length == scripts@.len(),
            all == scripts_of(scripts@),
            scripts_of(out@) == newer(all.take(i as int), current@, form),
        decreases length - i,
    {
        proof {
            assert(all.take(i + 1).drop_last() =~= all.take(i as int));
            assert(all.take(i + 1).last() == scripts@[i as int]@);
        }
        let version = scripts[i].version.as_str();
        let is_new = match form {
            VersionForm::Stamped => {
                let mine = extract_version_prefix(version);
                let theirs = extract_version_prefix(current);
                text_before(theirs.as_str(), mine.as_str())
            },
            VersionForm::Dated => text_before(current, version),
        };
        if is_new {
            let ghost before = out@;
            out.push(scripts[i].clone());
            proof {
                assert(scripts_of(out@) =~= scripts_of(before).push(scripts@[i as int]@));
            }
        }
        i = i + 1;
    }
    proof {
        assert(all.take(i as int) =~= all);
    }
    out
}

/// The scripts that are to run: all on a new database, the newer ones on a database that has a
/// version.
pub open spec fn planned(
    scripts: Seq<ScriptModel>,
    current: Option<Seq<char>>,
    form: VersionForm,
) -> Seq<ScriptModel> {
    match current {
        Some(current) => newer(scripts, current, form),
        None => scripts,
    }
}

/// Whether `plan` holds the scripts that are to run, in order, out of the files of a directory.
pub open spec fn is_plan(
    plan: Seq<Script>,
    files: Seq<ScriptFile>,
    current: Option<Seq<char>>,
    form: VersionForm,
) -> bool {
    exists|all: Seq<Script>| #[trigger]
        lists(all, scripts_in(files, form)) && scripts_of(plan) == planned(
            scripts_of(all),
            current,
            form,
        )
}

/// The scripts that are to run, in order, out of the files of a directory. `none` is the error
/// where the directory holds no script.
pub fn plan_migration(
    files: &Vec<ScriptFile>,
    current: &Option<String>,
    form: VersionForm,
    none: &str,
) -> (r: Result<Vec<Script>, PrivchatSDKError>)
    ensures
        match r {
            Ok(plan) => is_plan(plan@, files@, crate::json::opt_view(*current), form),
            Err(e) => e@ == ErrorModel::Database(none@),
        },
        r is Err <==> scripts_in(files@, form) == Map::<Seq<char>, Seq<char>>::empty(),
{
    match collect_scripts(files, form, none) {
        Ok(scripts) => {
            assert(scripts_in(files@, form).contains_key(scripts@[0].version@));
            match current {
                Some(current) => {
                    let plan = pending_scripts(&scripts, current.as_str(), form);
                    assert(lists(scripts@, scripts_in(files@, form)));
                    Ok(plan)
                },
                None => {
                    assert(lists(scripts@, scripts_in(files@, form)));
                    Ok(scripts)
                },
            }
        },
        Err(e) => Err(e),
    }
}

/// The list of all scripts is determined by the scripts.
pub proof fn law_one_order_of_scripts(
    a: Seq<Script>,
    b: Seq<Script>,
    all: Map<Seq<char>, Seq<char>>,
)
    requires
        lists(a, all),
        lists(b, all),
    ensures
        scripts_of(a) == scripts_of(b),
    decreases a.len(),
{
    if a.len() == 0 || b.len() == 0 {
        if a.len() > 0 {
            assert(all.contains_pair(a[0].version@, a[0].sql@));
            assert(has_version(b, a[0].version@));
        }
        if b.len() > 0 {
            assert(all.contains_pair(b[0].version@, b[0].sql@));
            assert(has_version(a, b[0].version@));
        }
        assert(scripts_of(a) =~= scripts_of(b));
    } else {
        let x = a.last().version@;
        let y = b.last().version@;
        assert(all.contains_pair(a[a.len() - 1].version@, a[a.len() - 1].sql@));
        assert(all.contains_pair(b[b.len() - 1].version@, b[b.len() - 1].sql@));
        assert(x == y) by {
            assert(has_version(b, x));
            assert(has_version(a, y));
            let k = choose|k: int| 0 <= k < b.len() && (#[trigger] b[k]).version@ == x;
            let l = choose|l: int| 0 <= l < a.len() && (#[trigger] a[l]).version@ == y;
            if x != y {
                assert(text::comes_before(b[k].version@, b[b.len() - 1].version@));
                assert(text::comes_before(a[l].version@, a[a.len() - 1].version@));
                text::lemma_order_one_way(x, y);
            }
        }
        let rest = all.remove(x);
        lemma_lists_without_last(a, all);
        lemma_lists_without_last(b, all);
        law_one_order_of_scripts(a.drop_last(), b.drop_last(), rest);
        assert(a.last()@ == b.last()@);
        assert(scripts_of(a) =~= scripts_of(a.drop_last()).push(a.last()@));
        assert(scripts_of(b) =~= scripts_of(b.drop_last()).push(b.last()@));
    }
}

proof fn lemma_lists_without_last(a: Seq<Script>, all: Map<Seq<char>, Seq<char>>)
    requires
        lists(a, all),
        a.len() > 0,
    ensures
        lists(a.drop_last(), all.remove(a.last().version@)),
{
    let rest = all.remove(a.last().version@);
    let front = a.drop_last();
    assert forall|i: int, j: int| 0 <= i < j < front.len() implies text::comes_before(
        (#[trigger] front[i]).version@,
        (#[trigger] front[j]).version@,
    ) by {
        assert(text::comes_before(a[i].version@, a[j].version@));
    }
    assert forall|i: int| 0 <= i < front.len() implies rest.contains_pair(
        (#[trigger] front[i]).version@,
        front[i].sql@,
    ) by {
        assert(all.contains_pair(a[i].version@, a[i].sql@));
        assert(text::comes_before(a[i].version@, a[a.len() - 1].version@));
        text::lemma_order_one_way(a[i].version@, a[i].version@);
    }
    assert forall|v: Seq<char>| #[trigger] rest.contains_key(v) implies has_version(front, v) by {
        assert(all.contains_key(v));
        let k = choose|k: int| 0 <= k < a.len() && (#[trigger] a[k]).version@ == v;
        assert(front[k].version@ == v);
    }
}

/// Every script that is to run is newer than the version of the database.
pub proof fn law_only_newer_scripts_run(
    scripts: Seq<ScriptModel>,
    current: Seq<char>,
    form: VersionForm,
)
    ensures
        forall|i: int|
            0 <= i < newer(scripts, current, form).len() ==> is_newer(
                (#[trigger] newer(scripts, current, form)[i]).version,
                current,
                form,
            ),
    decreases scripts.len(),
{
    if scripts.len() > 0 {
        law_only_newer_scripts_run(scripts.drop_last(), current, form);
        let before = newer(scripts.drop_last(), current, form);
        let all = newer(scripts, current, form);
        assert forall|i: int| 0 <= i < all.len() implies is_newer(
            (#[trigger] all[i]).version,
            current,
            form,
        ) by {
            if i < before.len() {
                assert(all[i] == before[i]);
            }
        }
    }
}

/// No script runs twice: once the scripts have run up to the last one, whose version is then the
/// database's, none is left to run. With time stamps this holds of stamps of one length, the 14
/// digits of a time.
pub proof fn law_no_script_runs_twice(
    scripts: Seq<Script>,
    all: Map<Seq<char>, Seq<char>>,
    form: VersionForm,
)
    requires
        lists(scripts, all),
        scripts.len() > 0,
        form == VersionForm::Stamped ==> forall|i: int|
            0 <= i < scripts.len() ==> stamp((#[trigger] scripts[i]).version@).len() == 14,
    ensures
        newer(scripts_of(scripts), scripts.last().version@, form) == Seq::<ScriptModel>::empty(),
{
    let last = scripts.last().version@;
    assert forall|i: int| 0 <= i < scripts.len() implies !is_newer(
        (#[trigger] scripts[i]).version@,
        last,
        form,
    ) by {
        let mine = scripts[i].version@;
        if i < scripts.len() - 1 {
            assert(text::comes_before(
                scripts[i].version@,
                scripts[scripts.len() - 1].version@,
            ));
        }
        text::lemma_order_one_way(mine, last);
        if form == VersionForm::Stamped {
            assert(stamp(scripts[scripts.len() - 1].version@).len() == 14);
            text::lemma_first_index_of(mine, '_');
            text::lemma_first_index_of(last, '_');
            assert(stamp(mine) =~= mine.take(14));
            assert(stamp(last) =~= last.take(14));
            text::lemma_order_one_way(stamp(mine), stamp(mine));
            if text::comes_before(stamp(last), stamp(mine)) {
                text::lemma_order_of_beginnings(last, mine, 14);
            }
        }
    }
    lemma_nothing_newer(scripts_of(scripts), last, form);
}

proof fn lemma_nothing_newer(scripts: Seq<ScriptModel>, current: Seq<char>, form: VersionForm)
    requires
        forall|i: int|
            0 <= i < scripts.len() ==> !is_newer((#[trigger] scripts[i]).version, current, form),
    ensures
        newer(scripts, current, form) == Seq::<ScriptModel>::empty(),
    decreases scripts.len(),
{
    if scripts.len() > 0 {
        assert forall|i: int| 0 <= i < scripts.drop_last().len() implies !is_newer(
            (#[trigger] scripts.drop_last()[i]).version,
            current,
            form,
        ) by {
            assert(scripts.drop_last()[i] == scripts[i]);
        }
        lemma_nothing_newer(scripts.drop_last(), current, form);
        assert(!is_newer(scripts[scripts.len() - 1].version, current, form));
    }
}

/// A file is a script just where its name ends with `.sql` and begins with a version of the form, which
/// is the name without the ending.
pub proof fn law_a_script_is_named_by_its_version(version: Seq<char>, form: VersionForm)
    requires
        !text::ends_with(version, ".sql"@),
    ensures
        version_of_file(version + ".sql"@, form) == (if has_form(version, form) {
            Some(version)
        } else {
            None
        }),
        version_of_file(version, form) is None,
{
    reveal_strlit(".sql");
    let name = version + ".sql"@;
    assert(name.skip(name.len() - 4) =~= ".sql"@);
    assert(name.take(name.len() - 4) =~= version);
    reveal_with_fuel(without_suffix, 2);
}

/// A dated version is eight or fourteen digits; a stamped one begins with fourteen, up to its first
/// underscore, after which anything may stand.
pub proof fn law_versions_are_dates(digits: Seq<char>, rest: Seq<char>)
    requires
        text::all_digits(digits),
    ensures
        has_form(digits, VersionForm::Dated) <==> digits.len() == 8 || digits.len() == 14,
        has_form(digits + seq!['_'] + rest, VersionForm::Stamped) <==> digits.len() >= 14,
        has_form(digits, VersionForm::Stamped) <==> digits.len() >= 14,
        stamp(digits + seq!['_'] + rest) == digits,
        stamp(digits) == digits,
{
    let name = digits + seq!['_'] + rest;
    let n = digits.len() as int;
    assert(name[n] == '_');
    assert forall|j: int| 0 <= j < n implies name[j] != '_' by {
        assert(name[j] == digits[j]);
        assert(text::is_digit(digits[j]));
    }
    text::lemma_first_index_is(name, '_', n);
    assert(name.take(n) =~= digits);
    text::lemma_first_index_of(digits, '_');
    if text::first_index_of(digits, '_') is Some {
        let i = text::first_index_of(digits, '_')->0;
        assert(text::is_digit(digits[i]));
    }
    if digits.len() >= 14 {
        assert forall|i: int| 0 <= i < 14 implies text::is_digit(#[trigger] digits.take(14)[i]) by {
            assert(text::is_digit(digits[i]));
        }
    }
}

/// Without a version all scripts run; with one just those after it, in their order.
pub proof fn law_scripts_after_the_version_run(
    scripts: Seq<ScriptModel>,
    script: ScriptModel,
    current: Seq<char>,
    form: VersionForm,
)
    ensures
        planned(scripts, None, form) == scripts,
        planned(Seq::empty(), Some(current), form).len() == 0,
        is_newer(script.version, current, form) ==> planned(scripts.push(script), Some(current), form)
            == planned(scripts, Some(current), form).push(script),
        !is_newer(script.version, current, form) ==> planned(scripts.push(script), Some(current), form)
            == planned(scripts, Some(current), form),
        is_newer(
            script.version,
            current,
            VersionForm::Dated,
        ) == text::comes_before(current, script.version),
        is_newer(script.version, current, VersionForm::Stamped) == text::comes_before(
            stamp(current),
            stamp(script.version),
        ),
{
    assert(scripts.push(script).drop_last() =~= scripts);
}

/// The scripts of a directory are its files with a version, each under it; of two with one version the
/// later counts, and other files do not.
pub proof fn law_a_directory_holds_its_scripts(
    files: Seq<ScriptFile>,
    file: ScriptFile,
    form: VersionForm,
    other: Seq<char>,
)
    ensures
        version_of_file(file.name@, form) is None ==> scripts_in(files.push(file), form) == scripts_in(
            files,
            form,
        ),
        version_of_file(file.name@, form) matches Some(version) ==> {
            let all = scripts_in(files.push(file), form);
            &&& all.contains_key(version) && all[version] == file.sql@
            &&& other != version ==> (all.contains_key(other) <==> scripts_in(files, form).contains_key(
                other,
            ))
            &&& other != version && all.contains_key(other) ==> all[other] == scripts_in(files, form)[other]
        },
        scripts_in(Seq::empty(), form) == Map::<Seq<char>, Seq<char>>::empty(),
{
    assert(files.push(file).drop_last() =~= files);
}

} // verus!
