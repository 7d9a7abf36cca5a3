//! Whole mangled names, on an input cut short.

use vstd::prelude::*;
use crate::ast::TypeHandle;
use crate::error::Error;
use crate::grammar;
use crate::grammar::{ParseOptions, ParseState};
use crate::handles::acyclic;
use crate::lemmas::cut::leaves::{
    lemma_array_dimension_at_end, lemma_array_dimension_cut, lemma_call_offset_at_end,
    lemma_call_offset_cut, lemma_suffix_end_cut,
};
use crate::lemmas::cut::name::{lemma_name_at_end, lemma_name_cut};
use crate::lemmas::cut::type_list::lemma_type_list_cut;
use crate::lemmas::cut::types::{lemma_type_at_end, lemma_type_cut};
use crate::lemmas::cut::{cut_of, lemma_cut_input};
use crate::lemmas::handles::encoding::{
    lemma_encoding, lemma_function, lemma_mangled_name, lemma_special_name,
};
use crate::lemmas::handles::name::lemma_name;
use crate::lemmas::handles::type_list::lemma_type_list;
use crate::lemmas::handles::types::lemma_type;
use crate::lemmas::leaves::{lemma_array_dimension, lemma_call_offset, lemma_suffix_end};
use crate::model;

verus! {

/// A function at the end of the input is an `UnexpectedEnd`.
pub proof fn lemma_function_at_end(input: Seq<u8>, st: ParseState, cfg: ParseOptions)
    requires
        st.pos >= input.len(),
    ensures
        grammar::parse_function(input, st, cfg) == Err::<
            ((model::Name, Seq<TypeHandle>), ParseState),
            Error,
        >(Error::UnexpectedEnd),
{
    reveal(grammar::parse_function);
    lemma_name_at_end(input, st, 0, cfg);
}

pub proof fn lemma_function_cut(input: Seq<u8>, k: int, st: ParseState, cfg: ParseOptions)
    requires
        0 <= st.pos <= k <= input.len(),
        acyclic(st.subs),
    ensures
        cut_of(
            grammar::parse_function(input, st, cfg),
            grammar::parse_function(input.take(k), st, cfg),
            k,
        ),
{
    reveal(grammar::parse_function);
    lemma_cut_input(input, k);
    lemma_function(input, st, cfg);
    lemma_name(input, st, 0, cfg);
    lemma_name_cut(input, k, st, 0, cfg);
    match grammar::parse_name(input, st, 0, cfg) {
        Ok((_, st1)) => {
            lemma_type_list(input, st1, 0, cfg, Seq::empty());
            if st1.pos <= k {
                lemma_type_list_cut(input, k, st1, 0, cfg, Seq::empty());
            }
        },
        Err(_) => {},
    }
}

pub proof fn lemma_special_name_cut(input: Seq<u8>, k: int, st: ParseState, cfg: ParseOptions)
    requires
        0 <= st.pos <= k <= input.len(),
        acyclic(st.subs),
    ensures
        cut_of(
            grammar::parse_special_name(input, st, cfg),
            grammar::parse_special_name(input.take(k), st, cfg),
            k,
        ),
{
    reveal(grammar::parse_special_name);
    reveal(grammar::parse_function);
    lemma_cut_input(input, k);
    lemma_special_name(input, st, cfg);
    let cut = input.take(k);
    let pos = st.pos;
    let behind = st.at(pos + 2);
    if pos + 1 < input.len() && grammar::parse_special_name(input, st, cfg) is Ok {
        let a = input[pos];
        let b = input[pos + 1];
        if pos + 2 > k {
            lemma_type(input, behind, 0, cfg);
            lemma_name(input, behind, 0, cfg);
            lemma_call_offset(input, pos + 1);
            match grammar::parse_call_offset(input, pos + 1) {
                Ok((_, p1)) => {
                    lemma_function(input, st.at(p1), cfg);
                },
                Err(_) => {},
            }
            lemma_call_offset(input, pos + 2);
            match grammar::parse_call_offset(input, pos + 2) {
                Ok((_, p1)) => {
                    lemma_call_offset(input, p1);
                    match grammar::parse_call_offset(input, p1) {
                        Ok((_, p2)) => {
                            lemma_function(input, st.at(p2), cfg);
                        },
                        Err(_) => {},
                    }
                },
                Err(_) => {},
            }
            match grammar::parse_type(input, behind, 0, cfg) {
                Ok((_, st1)) => {
                    lemma_array_dimension(input, st1.pos);
                    match grammar::parse_array_dimension(input, st1.pos) {
                        Ok((_, p2)) => {
                            lemma_type(input, st1.at(p2), 0, cfg);
                        },
                        Err(_) => {},
                    }
                },
                Err(_) => {},
            }
        } else if a == 'T' as u8 && (b == 'V' as u8 || b == 'T' as u8 || b == 'I' as u8 || b
            == 'S' as u8) {
            lemma_type_cut(input, k, behind, 0, cfg);
        } else if a == 'G' as u8 {
            lemma_name_cut(input, k, behind, 0, cfg);
        } else if a == 'T' as u8 && (b == 'h' as u8 || b == 'v' as u8) {
            lemma_call_offset(input, pos + 1);
            lemma_call_offset_cut(input, k, pos + 1);
            match grammar::parse_call_offset(input, pos + 1) {
                Ok((_, p1)) => {
                    lemma_function(input, st.at(p1), cfg);
                    if p1 <= k {
                        lemma_function_cut(input, k, st.at(p1), cfg);
                    } else {
                        match grammar::parse_call_offset(cut, pos + 1) {
                            Ok((_, q1)) => {
                                lemma_function_at_end(cut, st.at(q1), cfg);
                            },
                            Err(_) => {},
                        }
                    }
                },
                Err(_) => {},
            }
        } else if a == 'T' as u8 && b == 'c' as u8 {
            lemma_covariant_thunk_cut(input, k, st, cfg);
        } else if a == 'T' as u8 && b == 'C' as u8 {
            lemma_construction_vtable_cut(input, k, st, cfg);
            match grammar::parse_type(input, behind, 0, cfg) {
                Ok((_, st1)) => {
                    if st1.pos <= k {
                        lemma_array_dimension_cut(input, k, st1.pos);
                    }
                },
                Err(_) => {},
            }
        }
    }
}

proof fn lemma_covariant_thunk_cut(input: Seq<u8>, k: int, st: ParseState, cfg: ParseOptions)
    requires
        0 <= st.pos,
        st.pos + 2 <= k <= input.len(),
        acyclic(st.subs),
    ensures
        ({
            let full = grammar::parse_call_offset(input, st.pos + 2);
            let cut = grammar::parse_call_offset(input.take(k), st.pos + 2);
            full matches Ok((_, p1)) ==> {
                let full2 = grammar::parse_call_offset(input, p1);
                let cut2 = grammar::parse_call_offset(input.take(k), p1);
                &&& st.pos + 2 < p1 <= input.len()
                &&& p1 <= k ==> cut == full
                &&& p1 > k ==> (cut matches Ok((_, q1)) ==> grammar::parse_call_offset(
                    input.take(k),
                    q1,
                ) is Err && grammar::parse_call_offset(input.take(k), q1)->Err_0
                    == Error::UnexpectedEnd)
                &&& p1 > k ==> (cut matches Err(e) ==> e == Error::UnexpectedEnd)
                &&& full2 matches Ok((_, p2)) ==> {
                    let full3 = grammar::parse_function(input, st.at(p2), cfg);
                    &&& p1 < p2 <= input.len()
                    &&& p1 <= k && p2 <= k ==> cut2 == full2 && cut_of(
                        full3,
                        grammar::parse_function(input.take(k), st.at(p2), cfg),
                        k,
                    )
                    &&& p1 <= k < p2 ==> (cut2 matches Ok((_, q2)) ==> grammar::parse_function(
                        input.take(k),
                        st.at(q2),
                        cfg,
                    ) is Err && grammar::parse_function(input.take(k), st.at(q2), cfg)->Err_0
                        == Error::UnexpectedEnd)
                    &&& p1 <= k < p2 ==> (cut2 matches Err(e) ==> e == Error::UnexpectedEnd)
                    &&& full3 matches Ok((_, st1)) ==> p2 < st1.pos
                }
            }
        }),
{
    lemma_cut_input(input, k);
    let cut = input.take(k);
    let pos = st.pos;
    lemma_call_offset(input, pos + 2);
    lemma_call_offset_cut(input, k, pos + 2);
    match grammar::parse_call_offset(input, pos + 2) {
        Ok((_, p1)) => {
            lemma_call_offset(input, p1);
            if p1 <= k {
                lemma_call_offset_cut(input, k, p1);
                match grammar::parse_call_offset(input, p1) {
                    Ok((_, p2)) => {
                        lemma_function(input, st.at(p2), cfg);
                        if p2 <= k {
                            lemma_function_cut(input, k, st.at(p2), cfg);
                        } else {
                            match grammar::parse_call_offset(cut, p1) {
                                Ok((_, q2)) => {
                                    lemma_function_at_end(cut, st.at(q2), cfg);
                                },
                                Err(_) => {},
                            }
                        }
                    },
                    Err(_) => {},
                }
            } else {
                match grammar::parse_call_offset(input, p1) {
                    Ok((_, p2)) => {
                        lemma_function(input, st.at(p2), cfg);
                    },
                    Err(_) => {},
                }
                match grammar::parse_call_offset(cut, pos + 2) {
                    Ok((_, q1)) => {
                        lemma_call_offset_at_end(cut, q1);
                    },
                    Err(_) => {},
                }
            }
        },
        Err(_) => {},
    }
}

proof fn lemma_construction_vtable_cut(input: Seq<u8>, k: int, st: ParseState, cfg: ParseOptions)
    requires
        0 <= st.pos,
        st.pos + 2 <= k <= input.len(),
        acyclic(st.subs),
    ensures
        ({
            let behind = st.at(st.pos + 2);
            let full = grammar::parse_type(input, behind, 0, cfg);
            let cut = grammar::parse_type(input.take(k), behind, 0, cfg);
            &&& cut_of(full, cut, k)
            &&& full matches Ok((_, st1)) ==> {
                let full2 = grammar::parse_array_dimension(input, st1.pos);
                let cut2 = grammar::parse_array_dimension(input.take(k), st1.pos);
                &&& st.pos + 2 < st1.pos <= input.len()
                &&& st1.pos > k ==> (cut matches Ok((_, c1)) ==> grammar::parse_array_dimension(
                    input.take(k),
                    c1.pos,
                ) is Err && grammar::parse_array_dimension(input.take(k), c1.pos)->Err_0
                    == Error::UnexpectedEnd)
                &&& full2 matches Ok((_, p2)) ==> {
                    let full3 = grammar::parse_type(input, st1.at(p2), 0, cfg);
                    &&& st1.pos < p2 <= input.len()
                    &&& st1.pos <= k && p2 <= k ==> cut2 == full2 && cut_of(
                        full3,
                        grammar::parse_type(input.take(k), st1.at(p2), 0, cfg),
                        k,
                    )
                    &&& st1.pos <= k < p2 ==> (cut2 matches Ok((_, q2)) ==> grammar::parse_type(
                        input.take(k),
                        st1.at(q2),
                        0,
                        cfg,
                    ) is Err && grammar::parse_type(input.take(k), st1.at(q2), 0, cfg)->Err_0
                        == Error::UnexpectedEnd)
                    &&& st1.pos <= k < p2 ==> (cut2 matches Err(e) ==> e == Error::UnexpectedEnd)
                    &&& full3 matches Ok((_, st2)) ==> p2 < st2.pos
                }
            }
        }),
{
    lemma_cut_input(input, k);
    let cut = input.take(k);
    let behind = st.at(st.pos + 2);
    lemma_type(input, behind, 0, cfg);
    lemma_type_cut(input, k, behind, 0, cfg);
    match grammar::parse_type(input, behind, 0, cfg) {
        Ok((_, st1)) => {
            lemma_array_dimension(input, st1.pos);
            match grammar::parse_array_dimension(input, st1.pos) {
                Ok((_, p2)) => {
                    lemma_type(input, st1.at(p2), 0, cfg);
                },
                Err(_) => {},
            }
            if st1.pos <= k {
                lemma_array_dimension_cut(input, k, st1.pos);
                match grammar::parse_array_dimension(input, st1.pos) {
                    Ok((_, p2)) => {
                        if p2 <= k {
                            lemma_type_cut(input, k, st1.at(p2), 0, cfg);
                        } else {
                            match grammar::parse_array_dimension(cut, st1.pos) {
                                Ok((_, q2)) => {
                                    lemma_type_at_end(cut, st1.at(q2), 0, cfg);
                                },
                                Err(_) => {},
                            }
                        }
                    },
                    Err(_) => {},
                }
            } else {
                match grammar::parse_type(cut, behind, 0, cfg) {
                    Ok((_, c1)) => {
                        lemma_array_dimension_at_end(cut, c1.pos);
                    },
                    Err(_) => {},
                }
            }
        },
        Err(_) => {},
    }
}

pub proof fn lemma_encoding_cut(input: Seq<u8>, k: int, st: ParseState, cfg: ParseOptions)
    requires
        0 <= st.pos <= k <= input.len(),
        acyclic(st.subs),
    ensures
        cut_of(
            grammar::parse_encoding(input, st, cfg),
            grammar::parse_encoding(input.take(k), st, cfg),
            k,
        ),
{
    reveal(grammar::parse_encoding);
    reveal(grammar::parse_special_name);
    lemma_cut_input(input, k);
    lemma_encoding(input, st, cfg);
    lemma_special_name(input, st, cfg);
    lemma_special_name_cut(input, k, st, cfg);
    lemma_name(input, st, 0, cfg);
    lemma_name_cut(input, k, st, 0, cfg);
    match grammar::parse_name(input, st, 0, cfg) {
        Ok((_, st1)) => {
            lemma_type_list(input, st1, 0, cfg, Seq::empty());
            if st1.pos <= k {
                lemma_type_list_cut(input, k, st1, 0, cfg, Seq::empty());
            }
        },
        Err(_) => {},
    }
}

/// A mangled name that the grammar accepts is accepted alike on every
/// input that holds it whole, and on one that holds its beginning only it
/// is an `UnexpectedEnd` or a shorter name that takes up all of that
/// input.
pub proof fn lemma_mangled_name_cut(input: Seq<u8>, k: int, cfg: ParseOptions)
    requires
        0 <= k <= input.len(),
    ensures
        cut_of(
            grammar::parse_mangled_name(input, cfg),
            grammar::parse_mangled_name(input.take(k), cfg),
            k,
        ),
{
    reveal(grammar::parse_mangled_name);
    reveal(grammar::parse_encoding);
    lemma_cut_input(input, k);
    lemma_mangled_name(input, cfg);
    let start = grammar::mangled_start(input, cfg);
    let st = ParseState { pos: start + 2, subs: Seq::empty() };
    lemma_encoding(input, st, cfg);
    if start + 2 <= k {
        lemma_encoding_cut(input, k, st, cfg);
    }
    match grammar::parse_encoding(input, st, cfg) {
        Ok((_, st1)) => {
            if st1.pos < input.len() {
                lemma_suffix_end(input, st1.pos + 1);
            }
            if st1.pos + 1 <= k {
                lemma_suffix_end_cut(input, k, st1.pos + 1);
            }
        },
        Err(_) => {},
    }
}

/// The bytes that a mangled name was matched in are a mangled name of their
/// own, with the same tree and the same table: what follows a name in the
/// input has no part in how it is read.
pub proof fn lemma_matched_bytes_parse_alike(input: Seq<u8>, cfg: ParseOptions)
    ensures
        grammar::parse_mangled_name(input, cfg) matches Ok((name, st)) ==> 0 <= st.pos
            <= input.len() && grammar::parse_whole(input.take(st.pos), cfg) == Ok::<
            (model::MangledName, ParseState),
            Error,
        >((name, st)),
{
    reveal(grammar::parse_whole);
    lemma_mangled_name(input, cfg);
    match grammar::parse_mangled_name(input, cfg) {
        Ok((_, st)) => {
            lemma_mangled_name_cut(input, st.pos, cfg);
            lemma_cut_input(input, st.pos);
        },
        Err(_) => {},
    }
}

/// A mangled name that is cut short is an `UnexpectedEnd`, or a shorter
/// name that is whole in its own right: it is never refused for another
/// reason, and never read as a name with bytes left over.
pub proof fn lemma_cut_name_ends_unexpectedly(input: Seq<u8>, k: int, cfg: ParseOptions)
    requires
        0 <= k < input.len(),
        grammar::parse_whole(input, cfg) is Ok,
    ensures
        match grammar::parse_whole(input.take(k), cfg) {
            Ok((_, st)) => st.pos == k,
            Err(e) => e == Error::UnexpectedEnd,
        },
{
    reveal(grammar::parse_whole);
    lemma_mangled_name_cut(input, k, cfg);
    lemma_cut_input(input, k);
}

} // verus!
