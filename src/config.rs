//! The settings that configure the remote store: the options of one
//! configuration section, merged from several sources, and the scheme that
//! picks the kind of store.
use vstd::prelude::*;

verus! {

/// Relies on `String::push`: it appends one character.
#[verifier::external_body]
fn push_char(s: &mut String, c: char)
    ensures
        final(s)@ == old(s)@.push(c),
{
    s.push(c)
}

/// A configuration name with each dash turned into an underscore, the form
/// in which the store takes its options.
pub open spec fn option_name(name: Seq<char>) -> Seq<char> {
    name.map_values(|c: char| if c == '-' { '_' } else { c })
}

/// The value that the last setting named `key` holds, if any.
pub open spec fn setting_of(settings: Seq<(Seq<char>, Seq<char>)>, key: Seq<char>) -> Option<Seq<char>>
    decreases settings.len(),
{
    if settings.len() == 0 {
        None
    } else if settings.last().0 == key {
        Some(settings.last().1)
    } else {
        setting_of(settings.drop_last(), key)
    }
}

pub open spec fn settings_view(settings: Seq<(String, String)>) -> Seq<(Seq<char>, Seq<char>)> {
    settings.map_values(|p: (String, String)| (p.0@, p.1@))
}

/// The message of the error when no scheme is configured.
pub open spec fn missing_scheme_message() -> Seq<char> {
    "scheme not found"@
}

/// Turns a configuration name into an option name.
pub fn normalize_key(name: &str) -> (r: String)
    ensures
        r@ == option_name(name@),
{
    let n = name.unicode_len();
    let mut out = String::new();
    let mut i: usize = 0;
    while i < n
        invariant
            n == name@.len(),
            i <= n,
            out@ == option_name(name@.take(i as int)),
        decreases n - i,
    {
        let c = name.get_char(i);
        push_char(&mut out, if c == '-' { '_' } else { c });
        assert(name@.take(i + 1) == name@.take(i as int).push(c));
        assert(option_name(name@.take(i + 1)) =~= option_name(name@.take(i as int)).push(
            if c == '-' { '_' } else { c },
        ));
        i = i + 1;
    }
    assert(name@.take(n as int) =~= name@);
    out
}

/// The options of one configuration section, from its names and values in
/// order; of two names that give one option, the later counts.
pub fn section_settings(entries: Vec<(String, String)>) -> (r: Vec<(String, String)>)
    ensures
        r@.len() == entries@.len(),
        forall|i: int| 0 <= i < r@.len() ==> {
            &&& (#[trigger] r@[i]).0@ == option_name(entries@[i].0@)
            &&& r@[i].1 == entries@[i].1
        },
{
    let mut r: Vec<(String, String)> = Vec::new();
    let mut i: usize = 0;
    while i < entries.len()
        invariant
            i <= entries.len(),
            r@.len() == i,
            forall|j: int| 0 <= j < i ==> {
                &&& (#[trigger] r@[j]).0@ == option_name(entries@[j].0@)
                &&& r@[j].1 == entries@[j].1
            },
        decreases entries.len() - i,
    {
        let key = normalize_key(entries[i].0.as_str());
        r.push((key, entries[i].1.clone()));
        i = i + 1;
    }
    r
}

proof fn lemma_setting_of_concat(first: Seq<(Seq<char>, Seq<char>)>, second: Seq<(Seq<char>, Seq<char>)>, key: Seq<char>)
    ensures
        setting_of(first + second, key) == match setting_of(second, key) {
            Some(v) => Some(v),
            None => setting_of(first, key),
        },
    decreases second.len(),
{
    if second.len() == 0 {
        assert(first + second =~= first);
    } else {
        assert((first + second).drop_last() =~= first + second.drop_last());
        lemma_setting_of_concat(first, second.drop_last(), key);
    }
}

/// The settings of two sources together, those of `repo` over those of
/// `local`.
pub fn merge_settings(local: Vec<(String, String)>, repo: Vec<(String, String)>) -> (r: Vec<(String, String)>)
    ensures
        forall|key: Seq<char>| #[trigger] setting_of(settings_view(r@), key) == match setting_of(settings_view(repo@), key) {
            Some(v) => Some(v),
            None => setting_of(settings_view(local@), key),
        },
{
    let mut r = local;
    let mut more = repo;
    let ghost first = r@;
    let ghost second = more@;
    r.append(&mut more);
    proof {
        assert(settings_view(r@) =~= settings_view(first) + settings_view(second));
        assert forall|key: Seq<char>| #[trigger] setting_of(settings_view(r@), key) == match setting_of(settings_view(second), key) {
            Some(v) => Some(v),
            None => setting_of(settings_view(first), key),
        } by {
            lemma_setting_of_concat(settings_view(first), settings_view(second), key);
        }
    }
    r
}

/// Finds the value of the last setting named `key`.
pub fn find_setting(settings: &Vec<(String, String)>, key: &str) -> (r: Option<String>)
    ensures
        match r {
            Some(v) => setting_of(settings_view(settings@), key@) == Some(v@),
            None => setting_of(settings_view(settings@), key@) is None,
        },
{
    let ghost all = settings_view(settings@);
    let wanted = String::from_str(key);
    let mut i: usize = settings.len();
    assert(all.take(i as int) =~= all);
    while i > 0
        invariant
            i <= settings.len(),
            all == settings_view(settings@),
            wanted@ == key@,
            setting_of(all, key@) == setting_of(all.take(i as int), key@),
        decreases i,
    {
        let ghost front = all.take(i as int);
        assert(front.last() == (settings@[i - 1].0@, settings@[i - 1].1@));
        if settings[i - 1].0 == wanted {
            return Some(settings[i - 1].1.clone());
        }
        assert(front.drop_last() =~= all.take(i - 1));
        i = i - 1;
    }
    None
}

/// The scheme that picks the kind of remote store, from the merged settings.
pub fn remote_scheme(settings: &Vec<(String, String)>) -> (r: Result<String, String>)
    ensures
        match setting_of(settings_view(settings@), "scheme"@) {
            Some(v) => r == Ok::<String, String>(r->Ok_0) && r->Ok_0@ == v,
            None => r is Err && r->Err_0@ == missing_scheme_message(),
        },
{
    match find_setting(settings, "scheme") {
        Some(v) => Ok(v),
        None => Err(String::from_str("scheme not found")),
    }
}

} // verus!
