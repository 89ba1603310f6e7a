//! Crate-wide laws, stated over the request model and proved once.
//!
//! The request builders pin every parameter list down exactly; the proofs
//! here make the order-preservation consequences of those contracts
//! explicit.

use vstd::prelude::*;

use crate::request::{languages_params, option_params, source_params, text_params, translate_params};
use crate::types::{TranslatableTextList, TranslationOptions};

verus! {

/// The values of all parameters with one key, in request order.
pub open spec fn values_for_key(ps: Seq<(Seq<char>, Seq<char>)>, key: Seq<char>) -> Seq<Seq<char>>
    decreases ps.len(),
{
    if ps.len() == 0 {
        Seq::empty()
    } else {
        (if ps.first().0 == key {
            seq![ps.first().1]
        } else {
            Seq::empty()
        }) + values_for_key(ps.drop_first(), key)
    }
}

/// The character contents of a list of texts, in list order.
pub open spec fn texts_view(texts: Seq<String>) -> Seq<Seq<char>> {
    texts.map_values(|t: String| t@)
}

proof fn lemma_values_for_key_empty(key: Seq<char>)
    ensures
        values_for_key(Seq::empty(), key) == Seq::<Seq<char>>::empty(),
{
}

proof fn lemma_values_for_key_singleton(p: (Seq<char>, Seq<char>), key: Seq<char>)
    ensures
        values_for_key(seq![p], key) == (if p.0 == key {
            seq![p.1]
        } else {
            Seq::<Seq<char>>::empty()
        }),
{
    assert(seq![p].drop_first() =~= Seq::<(Seq<char>, Seq<char>)>::empty());
    assert(values_for_key(seq![p].drop_first(), key) =~= Seq::<Seq<char>>::empty());
    if p.0 == key {
        assert(values_for_key(seq![p], key) =~= seq![p.1]);
    } else {
        assert(values_for_key(seq![p], key) =~= Seq::<Seq<char>>::empty());
    }
}

proof fn lemma_values_for_key_add(
    a: Seq<(Seq<char>, Seq<char>)>,
    b: Seq<(Seq<char>, Seq<char>)>,
    key: Seq<char>,
)
    ensures
        values_for_key(a + b, key) == values_for_key(a, key) + values_for_key(b, key),
    decreases a.len(),
{
    if a.len() == 0 {
        assert(a + b =~= b);
        assert(values_for_key(a, key) =~= Seq::<Seq<char>>::empty());
        assert(values_for_key(a, key) + values_for_key(b, key) =~= values_for_key(b, key));
    } else {
        lemma_values_for_key_add(a.drop_first(), b, key);
        assert((a + b).first() == a.first());
        assert((a + b).drop_first() =~= a.drop_first() + b);
        assert((a + b).len() != 0);
        assert(values_for_key(a + b, key) =~= (if a.first().0 == key {
            seq![a.first().1]
        } else {
            Seq::<Seq<char>>::empty()
        }) + (values_for_key(a.drop_first(), key) + values_for_key(b, key)));
        assert(values_for_key(a, key) + values_for_key(b, key) =~= (if a.first().0 == key {
            seq![a.first().1]
        } else {
            Seq::<Seq<char>>::empty()
        }) + (values_for_key(a.drop_first(), key) + values_for_key(b, key)));
    }
}

proof fn lemma_text_params_values(texts: Seq<String>)
    ensures
        values_for_key(text_params(texts), "text"@) == texts_view(texts),
    decreases texts.len(),
{
    if texts.len() == 0 {
        assert(text_params(texts) =~= Seq::<(Seq<char>, Seq<char>)>::empty());
        assert(values_for_key(text_params(texts), "text"@) =~= texts_view(texts));
    } else {
        lemma_text_params_values(texts.drop_first());
        assert(text_params(texts).first() == ("text"@, texts.first()@));
        assert(text_params(texts).drop_first() =~= text_params(texts.drop_first()));
        assert(values_for_key(text_params(texts), "text"@) =~= seq![texts.first()@]
            + values_for_key(text_params(texts.drop_first()), "text"@));
        assert(texts_view(texts) =~= seq![texts.first()@] + texts_view(texts.drop_first()));
    }
}

proof fn lemma_option_params_have_no_text(o: TranslationOptions)
    ensures
        values_for_key(option_params(o), "text"@) == Seq::<Seq<char>>::empty(),
{
    reveal_strlit("text");
    reveal_strlit("split_sentences");
    reveal_strlit("preserve_formatting");
    reveal_strlit("formality");
    reveal_strlit("glossary_id");
    let key = "text"@;
    let split = match o.split_sentences {
        Option::Some(s) => seq![("split_sentences"@, crate::request::split_sentences_token(s))],
        Option::None => seq![],
    };
    let preserve = match o.preserve_formatting {
        Option::Some(b) => seq![("preserve_formatting"@, crate::request::preserve_formatting_token(b))],
        Option::None => seq![],
    };
    let formality = match o.formality {
        Option::Some(f) => seq![("formality"@, crate::request::formality_token(f))],
        Option::None => seq![],
    };
    let glossary = match o.glossary_id {
        Option::Some(g) => seq![("glossary_id"@, g@)],
        Option::None => seq![],
    };
    assert(key.len() == 4);
    assert("split_sentences"@.len() == 15);
    assert("preserve_formatting"@.len() == 19);
    assert("formality"@.len() == 9);
    assert("glossary_id"@.len() == 11);
    assert(option_params(o) == split + preserve + formality + glossary);
    lemma_values_for_key_add(split + preserve + formality, glossary, key);
    lemma_values_for_key_add(split + preserve, formality, key);
    lemma_values_for_key_add(split, preserve, key);
    match o.split_sentences {
        Option::Some(s) => {
            lemma_values_for_key_singleton(
                ("split_sentences"@, crate::request::split_sentences_token(s)),
                key,
            );
        },
        Option::None => {
            lemma_values_for_key_empty(key);
            assert(split =~= Seq::<(Seq<char>, Seq<char>)>::empty());
        },
    }
    match o.preserve_formatting {
        Option::Some(b) => {
            lemma_values_for_key_singleton(
                ("preserve_formatting"@, crate::request::preserve_formatting_token(b)),
                key,
            );
        },
        Option::None => {
            assert(preserve =~= Seq::<(Seq<char>, Seq<char>)>::empty());
        },
    }
    match o.formality {
        Option::Some(f) => {
            lemma_values_for_key_singleton(("formality"@, crate::request::formality_token(f)), key);
        },
        Option::None => {
            assert(formality =~= Seq::<(Seq<char>, Seq<char>)>::empty());
        },
    }
    match o.glossary_id {
        Option::Some(g) => {
            lemma_values_for_key_singleton(("glossary_id"@, g@), key);
        },
        Option::None => {
            assert(glossary =~= Seq::<(Seq<char>, Seq<char>)>::empty());
        },
    }
    assert(values_for_key(split, key) == Seq::<Seq<char>>::empty());
    assert(values_for_key(preserve, key) == Seq::<Seq<char>>::empty());
    assert(values_for_key(formality, key) == Seq::<Seq<char>>::empty());
    assert(values_for_key(glossary, key) == Seq::<Seq<char>>::empty());
    assert(values_for_key(option_params(o), key) =~= Seq::<Seq<char>>::empty());
}

/// Law: a translation request carries exactly one `text` parameter per
/// submitted block, in submission order, and no parameter of any other
/// origin uses that key — whatever the optional flags are.
pub proof fn lemma_translate_request_texts_in_order(
    options: Option<TranslationOptions>,
    text_list: TranslatableTextList,
)
    ensures
        values_for_key(translate_params(options, text_list), "text"@) == texts_view(
            text_list.texts@,
        ),
{
    reveal_strlit("text");
    reveal_strlit("target_lang");
    reveal_strlit("source_lang");
    let key = "text"@;
    let head = seq![("target_lang"@, text_list.target_language@)];
    let src = source_params(text_list.source_language);
    let txt = text_params(text_list.texts@);
    let opt = match options {
        Option::Some(o) => option_params(o),
        Option::None => seq![],
    };
    assert(translate_params(options, text_list) == head + src + txt + opt);
    lemma_values_for_key_add(head + src + txt, opt, key);
    lemma_values_for_key_add(head + src, txt, key);
    lemma_values_for_key_add(head, src, key);
    lemma_values_for_key_singleton(("target_lang"@, text_list.target_language@), key);
    assert("target_lang"@.len() == 11 && key.len() == 4);
    match text_list.source_language {
        Option::Some(s) => {
            lemma_values_for_key_singleton(("source_lang"@, s@), key);
            assert("source_lang"@.len() == 11);
        },
        Option::None => {
            assert(src =~= Seq::<(Seq<char>, Seq<char>)>::empty());
            lemma_values_for_key_empty(key);
        },
    }
    lemma_text_params_values(text_list.texts@);
    match options {
        Option::Some(o) => {
            lemma_option_params_have_no_text(o);
        },
        Option::None => {
            assert(opt =~= Seq::<(Seq<char>, Seq<char>)>::empty());
            lemma_values_for_key_empty(key);
        },
    }
    assert(values_for_key(translate_params(options, text_list), key) =~= texts_view(
        text_list.texts@,
    ));
}

/// Law: an empty submission carries no `text` parameter at all, so the
/// remote service sees the parameter as missing.
pub proof fn lemma_empty_submission_has_no_text(
    options: Option<TranslationOptions>,
    text_list: TranslatableTextList,
)
    requires
        text_list.texts@.len() == 0,
    ensures
        values_for_key(translate_params(options, text_list), "text"@).len() == 0,
{
    lemma_translate_request_texts_in_order(options, text_list);
}

/// Law: the two language listings are requested with distinct direction
/// discriminators, so they serve distinct purposes.
pub proof fn lemma_language_directions_distinct()
    ensures
        languages_params("source"@) != languages_params("target"@),
{
    reveal_strlit("source");
    reveal_strlit("target");
    assert("source"@[0] == 's' && "target"@[0] == 't');
    assert(languages_params("source"@)[0].1 == "source"@);
    assert(languages_params("target"@)[0].1 == "target"@);
}

} // verus!
