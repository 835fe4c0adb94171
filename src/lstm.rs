use crate::error::Error;
use crate::structs::{LstmData, TestTextData};
use crate::tokenize::{
    code_point_tokens, contains_seq, grapheme_tokens, granularity, granularity_of, token_count,
    tokens_of, Granularity,
};
use vstd::prelude::*;

verus! {

/// The largest dictionary a model may have: every id, the out-of-vocabulary
/// id `len` included, must fit a signed 16-bit integer.
pub const MAX_DICTIONARY_LEN: usize = 32767;

/// The id of token `t`: its dictionary entry, or the out-of-vocabulary id,
/// which is the number of entries.
pub open spec fn token_id(dic: Map<Seq<char>, i16>, t: Seq<char>) -> i16 {
    if dic.contains_key(t) {
        dic[t]
    } else {
        dic.len() as i16
    }
}

/// The ids of the tokens of `s` at granularity `g`, in order.
pub open spec fn ids_of(dic: Map<Seq<char>, i16>, g: Granularity, s: Seq<char>) -> Seq<i16> {
    tokens_of(g, s).map_values(|t: Seq<char>| token_id(dic, t))
}

/// Whether `class` numbers one of the four boundary tags.
pub open spec fn is_class(class: int) -> bool {
    0 <= class < 4
}

/// The boundary tag of a class: Begin, Inside, End or Single.
pub open spec fn tag_of(class: int) -> char {
    if class == 0 {
        'B'
    } else if class == 1 {
        'I'
    } else if class == 2 {
        'E'
    } else {
        'S'
    }
}

/// Whether `c` is one of the four boundary tags.
pub open spec fn is_tag(c: char) -> bool {
    c == 'B' || c == 'I' || c == 'E' || c == 'S'
}

/// The tags of a sequence of classes.
pub open spec fn tags_of(classes: Seq<usize>) -> Seq<char> {
    classes.map_values(|c: usize| tag_of(c as int))
}

/// Relies on `String::push`: the character is appended.
#[verifier::external_body]
fn push_char(s: &mut String, c: char)
    ensures
        final(s)@ == old(s)@.push(c),
{
    s.push(c);
}

/// A validated segmentation model: its name and its dictionary, whose size
/// leaves every id inside the signed 16-bit range.
pub struct Lstm {
    data: LstmData,
}

impl Lstm {
    #[verifier::type_invariant]
    closed spec fn inv(&self) -> bool {
        self.data.dic@.len() <= MAX_DICTIONARY_LEN
    }

    /// The name the model was built with.
    pub closed spec fn model_name(&self) -> Seq<char> {
        self.data.model@
    }

    /// The model's dictionary.
    pub closed spec fn dictionary(&self) -> Map<Seq<char>, i16> {
        self.data.dic@
    }

    /// Builds a model, refusing with `Limit` a dictionary of more than
    /// `MAX_DICTIONARY_LEN` entries.
    pub fn try_new(data: LstmData) -> (r: Result<Lstm, Error>)
        ensures
            match r {
                Ok(l) => data.dic@.len() <= MAX_DICTIONARY_LEN && l.model_name() == data.model@
                    && l.dictionary() == data.dic@,
                Err(e) => data.dic@.len() > MAX_DICTIONARY_LEN && e == Error::Limit,
            },
    {
        if data.dic.len() > MAX_DICTIONARY_LEN {
            return Err(Error::Limit);
        }
        Ok(Lstm { data })
    }

    /// The name of the model.
    pub fn get_model_name(&self) -> (r: &str)
        ensures
            r@ == self.model_name(),
    {
        self.data.model.as_str()
    }

    /// The id of token `g`: its dictionary entry, else the number of entries.
    pub fn return_id(&self, g: &str) -> (r: i16)
        ensures
            r == token_id(self.dictionary(), g@),
    {
        proof {
            use_type_invariant(self);
        }
        match self.data.dic.get(g) {
            Some(id) => id,
            None => self.data.dic.len() as i16,
        }
    }

    /// The ids of the tokens of `input`, tokenized as the model's name
    /// declares; `Syntax` where the name declares no granularity.
    pub fn token_ids(&self, input: &str) -> (r: Result<Vec<i16>, Error>)
        ensures
            match granularity_of(self.model_name()) {
                Some(g) => r is Ok && r->Ok_0@ == ids_of(self.dictionary(), g, input@)
                    && r->Ok_0@.len() == token_count(g, input@),
                None => r == Err::<Vec<i16>, Error>(Error::Syntax),
            },
            input@.len() == 0 && r is Ok ==> r->Ok_0@.len() == 0,
    {
        let g = match granularity(self.data.model.as_str()) {
            Ok(g) => g,
            Err(e) => {
                return Err(e);
            },
        };
        let ghost dic = self.dictionary();
        let mut ids: Vec<i16> = Vec::new();
        match g {
            Granularity::CodePoints => {
                let toks = code_point_tokens(input);
                let ghost tv = toks@.map_values(|t: String| t@);
                for i in 0..toks.len()
                    invariant
                        tv == toks@.map_values(|t: String| t@),
                        tv == tokens_of(g, input@),
                        dic == self.dictionary(),
                        ids@.len() == i,
                        forall|k: int| 0 <= k < i ==> #[trigger] ids@[k] == token_id(dic, tv[k]),
                {
                    ids.push(self.return_id(toks[i].as_str()));
                }
                assert(ids@ =~= ids_of(dic, g, input@));
            },
            Granularity::GraphemeClusters => {
                let toks = grapheme_tokens(input);
                let ghost tv = toks@.map_values(|t: &str| t@);
                for i in 0..toks.len()
                    invariant
                        tv == toks@.map_values(|t: &str| t@),
                        tv == tokens_of(g, input@),
                        (toks@.len() == 0) == (input@.len() == 0),
                        dic == self.dictionary(),
                        ids@.len() == i,
                        forall|k: int| 0 <= k < i ==> #[trigger] ids@[k] == token_id(dic, tv[k]),
                {
                    ids.push(self.return_id(toks[i]));
                }
                assert(ids@ =~= ids_of(dic, g, input@));
            },
        }
        Ok(ids)
    }

    /// The tag of class `class`; `Syntax` for a class outside the four.
    pub fn compute_bies(class: usize) -> (r: Result<char, Error>)
        ensures
            r == (if is_class(class as int) {
                Ok(tag_of(class as int))
            } else {
                Err(Error::Syntax)
            }),
    {
        match class {
            0 => Ok('B'),
            1 => Ok('I'),
            2 => Ok('E'),
            3 => Ok('S'),
            _ => Err(Error::Syntax),
        }
    }

    /// The tag string of a sequence of classes, one tag per class; `Syntax`
    /// where some class lies outside the four.
    pub fn bies_of_classes(classes: &Vec<usize>) -> (r: Result<String, Error>)
        ensures
            (forall|k: int| 0 <= k < classes@.len() ==> is_class(#[trigger] classes@[k] as int))
                <==> r is Ok,
            r is Err ==> r == Err::<String, Error>(Error::Syntax),
            r is Ok ==> r->Ok_0@ == tags_of(classes@),
            r is Ok ==> forall|k: int| 0 <= k < r->Ok_0@.len() ==> is_tag(#[trigger] r->Ok_0@[k]),
    {
        let mut bies = String::new();
        for i in 0..classes.len()
            invariant
                bies@ == tags_of(classes@.subrange(0, i as int)),
                forall|k: int| 0 <= k < i ==> is_class(#[trigger] classes@[k] as int),
        {
            match Lstm::compute_bies(classes[i]) {
                Ok(c) => {
                    push_char(&mut bies, c);
                    assert(classes@.subrange(0, i + 1) =~= classes@.subrange(0, i as int).push(
                        classes@[i as int],
                    ));
                },
                Err(e) => {
                    return Err(e);
                },
            }
        }
        assert(classes@.subrange(0, classes@.len() as int) =~= classes@);
        Ok(bies)
    }

    /// The positions a sweep over `n` tokens visits, step by step: in order
    /// for the forward sweep, in reverse for the backward one. Each step's
    /// hidden state is stored at the position it visited.
    pub fn sweep_order(n: usize, backward: bool) -> (r: Vec<usize>)
        ensures
            r@.len() == n,
            forall|k: int|
                0 <= k < n ==> #[trigger] r@[k] == (if backward {
                    n - 1 - k
                } else {
                    k
                }),
    {
        let mut r: Vec<usize> = Vec::new();
        for k in 0..n
            invariant
                r@.len() == k,
                forall|j: int|
                    0 <= j < k ==> #[trigger] r@[j] == (if backward {
                        n - 1 - j
                    } else {
                        j
                    }),
        {
            if backward {
                r.push(n - 1 - k);
            } else {
                r.push(k);
            }
        }
        r
    }
}

/// However the classes of a text's tokens come out, its tag string holds one
/// tag per token of the text, at the model's granularity.
pub proof fn lemma_one_tag_per_token(
    dic: Map<Seq<char>, i16>,
    g: Granularity,
    text: Seq<char>,
    classes: Seq<usize>,
)
    requires
        classes.len() == ids_of(dic, g, text).len(),
    ensures
        tags_of(classes).len() == token_count(g, text),
{
}

/// Every character of a tag string is one of `B`, `I`, `E` and `S`.
pub proof fn lemma_tags_are_bies(classes: Seq<usize>)
    ensures
        forall|k: int| 0 <= k < tags_of(classes).len() ==> is_tag(#[trigger] tags_of(classes)[k]),
{
}

/// The empty text has no tokens, hence no ids and an empty tag string.
pub proof fn lemma_empty_text(dic: Map<Seq<char>, i16>, classes: Seq<usize>)
    requires
        classes.len() == 0,
    ensures
        ids_of(dic, Granularity::CodePoints, Seq::<char>::empty()).len() == 0,
        tags_of(classes) == Seq::<char>::empty(),
{
    assert(tags_of(classes) =~= Seq::<char>::empty());
}

/// Segmenting is deterministic: the same model and text give the same ids,
/// and the same classes the same tags.
pub proof fn lemma_deterministic(
    dic: Map<Seq<char>, i16>,
    g: Granularity,
    text1: Seq<char>,
    text2: Seq<char>,
    classes1: Seq<usize>,
    classes2: Seq<usize>,
)
    requires
        text1 == text2,
        classes1 == classes2,
    ensures
        ids_of(dic, g, text1) == ids_of(dic, g, text2),
        tags_of(classes1) == tags_of(classes2),
{
}

/// Any two tokens missing from the dictionary share the out-of-vocabulary
/// id, which is the number of entries.
pub proof fn lemma_oov_id(dic: Map<Seq<char>, i16>, t1: Seq<char>, t2: Seq<char>)
    requires
        dic.len() <= MAX_DICTIONARY_LEN,
        !dic.contains_key(t1),
        !dic.contains_key(t2),
    ensures
        token_id(dic, t1) == token_id(dic, t2),
        token_id(dic, t1) as int == dic.len(),
{
}

/// A model tokenizes by code point where its name contains `codepoints`, by
/// grapheme cluster where it contains `graphclust` and not `codepoints`, and
/// not at all where it contains neither.
pub proof fn lemma_granularity_selection(name: Seq<char>)
    ensures
        contains_seq(name, "codepoints"@) ==> granularity_of(name) == Some(
            Granularity::CodePoints,
        ),
        !contains_seq(name, "codepoints"@) && contains_seq(name, "graphclust"@)
            ==> granularity_of(name) == Some(Granularity::GraphemeClusters),
        !contains_seq(name, "codepoints"@) && !contains_seq(name, "graphclust"@)
            ==> granularity_of(name) is None,
{
}


/// A segmentation test set, as handed to a model.
#[derive(Debug)]
pub struct TestText {
    pub data: TestTextData,
}

impl TestText {
    /// Wraps a test set.
    pub fn new(data: TestTextData) -> (r: TestText)
        ensures
            r.data == data,
    {
        TestText { data }
    }
}

} // verus!
