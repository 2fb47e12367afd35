//! The search filters of the model picker and the command palette.

use vstd::prelude::*;

use crate::state::App;
use crate::text::{
    chars_of, concat, contains, contains_spec, lowercase, split_whitespace, to_lowercase, words,
};
use crate::types::{Command, Model, Provider};

verus! {

/// One entry of the model picker.
#[derive(Debug, Clone)]
pub struct ModelEntry {
    pub provider_id: String,
    pub provider_name: String,
    pub model_id: String,
    pub model_name: String,
}

/// The view of an entry: provider id, provider name, model id, model name.
pub open spec fn entry_view(e: ModelEntry) -> (Seq<char>, Seq<char>, Seq<char>, Seq<char>) {
    (e.provider_id@, e.provider_name@, e.model_id@, e.model_name@)
}

/// The text a model is searched by: provider name, provider id, model name and
/// model id, separated by spaces.
pub open spec fn model_haystack(p: Provider, m: Model) -> Seq<char> {
    p.name@ + seq![' '] + p.id@ + seq![' '] + m.name@ + seq![' '] + m.id@
}

/// Whether a model passes the lowercased filter `f`: `f` is empty, or each of
/// its words occurs in the lowercased haystack.
pub open spec fn model_passes(f: Seq<char>, p: Provider, m: Model) -> bool {
    f.len() == 0 || forall|i: int|
        0 <= i < words(f).len() ==> contains_spec(
            lowercase(model_haystack(p, m)),
            #[trigger] words(f)[i],
        )
}

/// The entries of one provider's models that pass `f`.
pub open spec fn provider_entries(f: Seq<char>, p: Provider) -> Seq<
    (Seq<char>, Seq<char>, Seq<char>, Seq<char>),
> {
    p.models@.filter(|m: Model| model_passes(f, p, m)).map_values(
        |m: Model| (p.id@, p.name@, m.id@, m.name@),
    )
}

/// The entries of the first `n` providers that pass `f`, in order.
pub open spec fn entries_upto(f: Seq<char>, ps: Seq<Provider>, n: int) -> Seq<
    (Seq<char>, Seq<char>, Seq<char>, Seq<char>),
>
    decreases n,
{
    if n <= 0 {
        Seq::empty()
    } else {
        entries_upto(f, ps, n - 1) + provider_entries(f, ps[n - 1])
    }
}

/// The model picker's entries for the app's current filter.
pub open spec fn model_entries_spec(app: App) -> Seq<(Seq<char>, Seq<char>, Seq<char>, Seq<char>)> {
    entries_upto(lowercase(app.dialog_filter@), app.providers@, app.providers@.len() as int)
}

fn passes(f: &[char], words_f: &Vec<Vec<char>>, p: &Provider, m: &Model) -> (r: bool)
    requires
        words_f@.map_values(|w: Vec<char>| w@) == words(f@),
    ensures
        r == model_passes(f@, *p, *m),
{
    if f.len() == 0 {
        return true;
    }
    let hay = concat(p.name.as_str(), " ");
    let hay = concat(hay.as_str(), p.id.as_str());
    let hay = concat(hay.as_str(), " ");
    let hay = concat(hay.as_str(), m.name.as_str());
    let hay = concat(hay.as_str(), " ");
    let hay = concat(hay.as_str(), m.id.as_str());
    proof {
        reveal_strlit(" ");
        assert(hay@ == model_haystack(*p, *m));
    }
    let lower = to_lowercase(hay.as_str());
    let lv = chars_of(lower.as_str());
    for i in 0..words_f.len()
        invariant
            words_f@.map_values(|w: Vec<char>| w@) == words(f@),
            lv@ == lowercase(model_haystack(*p, *m)),
            forall|j: int| 0 <= j < i ==> contains_spec(lv@, #[trigger] words(f@)[j]),
    {
        assert(words(f@)[i as int] == words_f@[i as int]@);
        if !contains(&lv, &words_f[i]) {
            assert(words_f@.len() == words(f@).len());
            assert(!contains_spec(lowercase(model_haystack(*p, *m)), words(f@)[i as int]));
            return false;
        }
    }
    true
}

/// The model picker's entries: every model of every provider that passes the
/// dialog's filter, provider by provider.
pub fn filtered_models(app: &App) -> (r: Vec<ModelEntry>)
    ensures
        r@.map_values(|e: ModelEntry| entry_view(e)) == model_entries_spec(*app),
{
    let fl = to_lowercase(app.dialog_filter.as_str());
    let f = chars_of(fl.as_str());
    let words_f = split_whitespace(&f);
    let mut entries: Vec<ModelEntry> = Vec::new();
    for i in 0..app.providers.len()
        invariant
            f@ == lowercase(app.dialog_filter@),
            words_f@.map_values(|w: Vec<char>| w@) == words(f@),
            entries@.map_values(|e: ModelEntry| entry_view(e)) == entries_upto(
                f@,
                app.providers@,
                i as int,
            ),
    {
        let p = &app.providers[i];
        let ghost before = entries@.map_values(|e: ModelEntry| entry_view(e));
        let ghost pass = |m: Model| model_passes(f@, *p, m);
        for j in 0..p.models.len()
            invariant
                f@ == lowercase(app.dialog_filter@),
                words_f@.map_values(|w: Vec<char>| w@) == words(f@),
                pass == (|m: Model| model_passes(f@, *p, m)),
                entries@.map_values(|e: ModelEntry| entry_view(e)) == before + p.models@.take(
                    j as int,
                ).filter(pass).map_values(|m: Model| (p.id@, p.name@, m.id@, m.name@)),
        {
            proof {
                crate::seq_util::lemma_filter_take(p.models@, pass, j as int);
            }
            let m = &p.models[j];
            let ghost prev = entries@;
            if passes(&f, &words_f, p, m) {
                let e = ModelEntry {
                    provider_id: p.id.clone(),
                    provider_name: p.name.clone(),
                    model_id: m.id.clone(),
                    model_name: m.name.clone(),
                };
                entries.push(e);
                proof {
                    assert(entries@.map_values(|e: ModelEntry| entry_view(e)) =~= prev.map_values(
                        |e: ModelEntry| entry_view(e),
                    ).push(entry_view(e)));
                    assert(p.models@.take(j + 1).filter(pass).map_values(
                        |m: Model| (p.id@, p.name@, m.id@, m.name@),
                    ) =~= p.models@.take(j as int).filter(pass).map_values(
                        |m: Model| (p.id@, p.name@, m.id@, m.name@),
                    ).push((p.id@, p.name@, m.id@, m.name@)));
                }
            }
        }
        proof {
            assert(p.models@.take(p.models@.len() as int) == p.models@);
            assert(pass == (|m: Model| model_passes(f@, *p, m)));
        }
    }
    entries
}

/// Whether a command passes the lowercased filter `f`: `f` is empty, or it
/// occurs in the lowercased name or description.
pub open spec fn command_passes(f: Seq<char>, c: Command) -> bool {
    f.len() == 0 || contains_spec(lowercase(c.name@), f) || match c.description {
        Some(d) => contains_spec(lowercase(d@), f),
        None => false,
    }
}

/// The commands the palette lists for its filter.
pub open spec fn command_filter(f: Seq<char>) -> spec_fn(Command) -> bool {
    |c: Command| command_passes(f, c)
}

/// The commands the palette lists: those whose name or description contains
/// the dialog's filter, ignoring case.
pub fn filtered_commands(app: &App) -> (r: Vec<&Command>)
    ensures
        r@.map_values(|c: &Command| *c) == app.commands@.filter(
            command_filter(lowercase(app.dialog_filter@)),
        ),
{
    let fl = to_lowercase(app.dialog_filter.as_str());
    let f = chars_of(fl.as_str());
    let ghost pred = command_filter(lowercase(app.dialog_filter@));
    let mut r: Vec<&Command> = Vec::new();
    for i in 0..app.commands.len()
        invariant
            f@ == lowercase(app.dialog_filter@),
            pred == command_filter(lowercase(app.dialog_filter@)),
            r@.map_values(|c: &Command| *c) == app.commands@.take(i as int).filter(pred),
    {
        proof {
            crate::seq_util::lemma_filter_take(app.commands@, pred, i as int);
        }
        let c = &app.commands[i];
        let keep = if f.len() == 0 {
            true
        } else {
            let name = to_lowercase(c.name.as_str());
            if contains(&chars_of(name.as_str()), &f) {
                true
            } else {
                match &c.description {
                    Some(d) => {
                        let dl = to_lowercase(d.as_str());
                        contains(&chars_of(dl.as_str()), &f)
                    },
                    None => false,
                }
            }
        };
        let ghost prev = r@;
        if keep {
            r.push(c);
            proof {
                assert(r@.map_values(|c: &Command| *c) =~= prev.map_values(|c: &Command| *c).push(*c));
            }
        }
    }
    assert(app.commands@.take(app.commands@.len() as int) == app.commands@);
    r
}

} // verus!
