//! Pipeline descriptions: reading the declarative JSON form of a pipeline,
//! inferring the reader of its first stage, and the executed pipeline's
//! results.
//!
//! A pipeline description is either a JSON array of stages or a JSON object
//! whose `pipeline` member holds that array. A stage is a bare filename
//! string or an object; of a stage object only the `type` and `filename`
//! members steer validation, all others are stage options. The first stage
//! must be a reader: either its `type` names one outright or its filename's
//! extension implies one.

use vstd::prelude::*;
use vstd::slice::slice_subrange;
use vstd::slice::slice_to_vec;
use vstd::string::StringExecFns;
use vstd::string::StringSliceAdditionalSpecFns;

use crate::error::Error;
use crate::json::sp_string_end;
use crate::json::sp_value_end;
use crate::json::sp_ws;
use crate::json::skip_string;
use crate::json::skip_value;
use crate::json::skip_ws;

verus! {

/// A pipeline description held as text.
#[derive(Clone, Debug)]
pub struct PdalJson {
    text: String,
}

impl View for PdalJson {
    type V = Seq<char>;

    closed spec fn view(&self) -> Seq<char> {
        self.text@
    }
}

impl PdalJson {
    /// Wrap pipeline text.
    pub fn new(text: &str) -> (r: PdalJson)
        ensures
            r@ == text@,
    {
        PdalJson { text: text.to_owned() }
    }

    /// The pipeline text.
    pub fn as_str(&self) -> (r: &str)
        ensures
            r@ == self@,
    {
        self.text.as_str()
    }
}

impl From<String> for PdalJson {
    fn from(value: String) -> (r: PdalJson) {
        PdalJson { text: value }
    }
}

impl vstd::std_specs::convert::FromSpecImpl<String> for PdalJson {
    open spec fn obeys_from_spec() -> bool {
        true
    }

    closed spec fn from_spec(v: String) -> PdalJson {
        PdalJson { text: v }
    }
}

/// What validation reads off one pipeline stage, at the spec level.
pub struct SpStage {
    pub stage_type: Option<Seq<u8>>,
    pub filename: Option<Seq<u8>>,
}

/// What validation reads off one pipeline stage: its `type` member and its
/// `filename` member, where present, in UTF-8 bytes.
#[derive(Clone, Debug)]
pub struct Stage {
    pub stage_type: Option<Vec<u8>>,
    pub filename: Option<Vec<u8>>,
}

impl View for Stage {
    type V = SpStage;

    open spec fn view(&self) -> SpStage {
        SpStage {
            stage_type: match self.stage_type {
                Some(t) => Some(t@),
                None => None,
            },
            filename: match self.filename {
                Some(f) => Some(f@),
                None => None,
            },
        }
    }
}

/// The stages of a stage list, at the spec level.
pub open spec fn spec_stage_seq(stages: Seq<Stage>) -> Seq<SpStage> {
    stages.map(|i: int, st: Stage| st@)
}

/// The bytes of the member name `type`.
pub open spec fn key_type() -> Seq<u8> {
    seq![116u8, 121u8, 112u8, 101u8]
}

/// The bytes of the member name `filename`.
pub open spec fn key_filename() -> Seq<u8> {
    seq![102u8, 105u8, 108u8, 101u8, 110u8, 97u8, 109u8, 101u8]
}

/// The bytes of the member name `pipeline`.
pub open spec fn key_pipeline() -> Seq<u8> {
    seq![112u8, 105u8, 112u8, 101u8, 108u8, 105u8, 110u8, 101u8]
}

/// The bytes of the stage-type prefix `readers.`.
pub open spec fn readers_prefix() -> Seq<u8> {
    seq![114u8, 101u8, 97u8, 100u8, 101u8, 114u8, 115u8, 46u8]
}

/// Lower-case folding of an ASCII byte.
pub open spec fn spec_lower(b: u8) -> u8 {
    if 65 <= b && b <= 90 {
        (b + 32) as u8
    } else {
        b
    }
}

/// Position of the last `.` at or before `i`; `None` if none stands there.
pub open spec fn sp_last_dot(f: Seq<u8>, i: int) -> Option<int>
    decreases i + 1,
{
    if i < 0 {
        None
    } else if 0 <= i < f.len() && f[i] == 46 {
        Some(i)
    } else {
        sp_last_dot(f, i - 1)
    }
}

/// Filename extensions the engine's readers claim; lower-case.
pub open spec fn is_reader_extension(e: Seq<u8>) -> bool {
    ||| e == seq![108u8, 97u8, 115u8]  // las
    ||| e == seq![108u8, 97u8, 122u8]  // laz
    ||| e == seq![98u8, 112u8, 102u8]  // bpf
    ||| e == seq![112u8, 108u8, 121u8]  // ply
    ||| e == seq![112u8, 99u8, 100u8]  // pcd
    ||| e == seq![99u8, 115u8, 118u8]  // csv
    ||| e == seq![116u8, 120u8, 116u8]  // txt
}

/// Whether a filename's extension implies a reader: its part after the
/// last dot, folded to lower case, is an extension a reader claims.
pub open spec fn spec_infers_reader(f: Seq<u8>) -> bool {
    match sp_last_dot(f, f.len() - 1) {
        None => false,
        Some(d) => is_reader_extension(f.subrange(d + 1, f.len() as int).map_values(|b: u8| spec_lower(b))),
    }
}

/// Whether a stage type names a reader outright.
pub open spec fn spec_is_readers_type(t: Seq<u8>) -> bool {
    t.len() >= 8 && t.subrange(0, 8) == readers_prefix()
}

/// Whether the stage resolves to a reader: an explicit `readers.` type, or
/// no type and a filename whose extension implies one.
pub open spec fn spec_stage_is_reader(st: SpStage) -> bool {
    match st.stage_type {
        Some(t) => spec_is_readers_type(t),
        None => match st.filename {
            Some(f) => spec_infers_reader(f),
            None => false,
        },
    }
}

/// Whether the stage's kind can be told at all: it names a type or a
/// filename.
pub open spec fn spec_stage_known(st: SpStage) -> bool {
    st.stage_type is Some || st.filename is Some
}

/// The first fault a parsed stage list carries: no stages at all, a first
/// stage that resolves to no reader, or a later stage of no tellable kind.
pub open spec fn sp_stages_error(stages: Seq<SpStage>) -> Option<Error> {
    if stages.len() == 0 {
        Some(Error::EmptyPipeline)
    } else if !spec_stage_is_reader(stages[0]) {
        Some(Error::NoReaderStage)
    } else if exists|i: int| 1 <= i < stages.len() && !spec_stage_known(#[trigger] stages[i]) {
        Some(Error::StageTypeUnknown)
    } else {
        None
    }
}

/// Read the stage list starting inside `[` at `i` (bracket or preceding
/// comma consumed), appending to `acc`; yields the stages and the position
/// past the closing bracket.
pub open spec fn sp_parse_stages(s: Seq<u8>, i: int, first: bool, acc: Seq<SpStage>) -> Option<
    (Seq<SpStage>, int),
>
    decreases s.len() - i,
{
    let j = sp_ws(s, i);
    if j < i || j >= s.len() {
        None
    } else if s[j] == 93 {  // ']'
        if first {
            Some((acc, j + 1))
        } else {
            None
        }
    } else if s[j] == 34 {  // '"': a bare filename stage
        match sp_string_end(s, j + 1) {
            None => None,
            Some(se) => {
                let st = SpStage { stage_type: None, filename: Some(s.subrange(j + 1, se - 1)) };
                let j2 = sp_ws(s, se);
                if j2 >= s.len() {
                    None
                } else if s[j2] == 93 {
                    Some((acc.push(st), j2 + 1))
                } else if s[j2] == 44 && j2 + 1 > i {
                    sp_parse_stages(s, j2 + 1, false, acc.push(st))
                } else {
                    None
                }
            },
        }
    } else if s[j] == 123 {  // '{': a stage object
        match sp_parse_stage_obj(s, j + 1, true, SpStage { stage_type: None, filename: None }) {
            None => None,
            Some((st, e)) => {
                let j2 = sp_ws(s, e);
                if j2 >= s.len() {
                    None
                } else if s[j2] == 93 {
                    Some((acc.push(st), j2 + 1))
                } else if s[j2] == 44 && j2 + 1 > i {
                    sp_parse_stages(s, j2 + 1, false, acc.push(st))
                } else {
                    None
                }
            },
        }
    } else {
        None
    }
}

/// Read the members of one stage object starting at `i` (brace or
/// preceding comma consumed), folding `type` and `filename` members into
/// `acc` (a later duplicate wins); yields the stage and the position past
/// the closing brace.
pub open spec fn sp_parse_stage_obj(s: Seq<u8>, i: int, first: bool, acc: SpStage) -> Option<
    (SpStage, int),
>
    decreases s.len() - i,
{
    let j = sp_ws(s, i);
    if j < i || j >= s.len() {
        None
    } else if s[j] == 125 {  // '}'
        if first {
            Some((acc, j + 1))
        } else {
            None
        }
    } else if s[j] != 34 {
        None
    } else {
        match sp_string_end(s, j + 1) {
            None => None,
            Some(ke) => {
                let key = s.subrange(j + 1, ke - 1);
                let j2 = sp_ws(s, ke);
                if j2 >= s.len() || s[j2] != 58 {  // ':'
                    None
                } else {
                    let j3 = sp_ws(s, j2 + 1);
                    if j3 < s.len() && s[j3] == 34 {  // a string value
                        match sp_string_end(s, j3 + 1) {
                            None => None,
                            Some(ve) => {
                                let v = s.subrange(j3 + 1, ve - 1);
                                let acc2 = if key == key_type() {
                                    SpStage { stage_type: Some(v), filename: acc.filename }
                                } else if key == key_filename() {
                                    SpStage { stage_type: acc.stage_type, filename: Some(v) }
                                } else {
                                    acc
                                };
                                let j4 = sp_ws(s, ve);
                                if j4 >= s.len() {
                                    None
                                } else if s[j4] == 125 {
                                    Some((acc2, j4 + 1))
                                } else if s[j4] == 44 && j4 + 1 > i {
                                    sp_parse_stage_obj(s, j4 + 1, false, acc2)
                                } else {
                                    None
                                }
                            },
                        }
                    } else {
                        if j3 < i || j3 > s.len() {
                            None
                        } else {
                            match sp_value_end(s, j3) {
                                None => None,
                                Some(ve) => {
                                    let j4 = sp_ws(s, ve);
                                    if j4 >= s.len() {
                                        None
                                    } else if s[j4] == 125 {
                                        Some((acc, j4 + 1))
                                    } else if s[j4] == 44 && j4 + 1 > i {
                                        sp_parse_stage_obj(s, j4 + 1, false, acc)
                                    } else {
                                        None
                                    }
                                },
                            }
                        }
                    }
                }
            },
        }
    }
}

/// Read the members of the root object starting at `i` (brace or
/// preceding comma consumed). A `pipeline` member must hold a stage array
/// (a later duplicate wins); other members are passed over. Yields the
/// stage list found, if any, and the position past the closing brace.
pub open spec fn sp_root_members(s: Seq<u8>, i: int, first: bool, acc: Option<Seq<SpStage>>) -> Option<
    (Option<Seq<SpStage>>, int),
>
    decreases s.len() - i,
{
    let j = sp_ws(s, i);
    if j < i || j >= s.len() {
        None
    } else if s[j] == 125 {  // '}'
        if first {
            Some((acc, j + 1))
        } else {
            None
        }
    } else if s[j] != 34 {
        None
    } else {
        match sp_string_end(s, j + 1) {
            None => None,
            Some(ke) => {
                let key = s.subrange(j + 1, ke - 1);
                let j2 = sp_ws(s, ke);
                if j2 >= s.len() || s[j2] != 58 {  // ':'
                    None
                } else {
                    let j3 = sp_ws(s, j2 + 1);
                    if key == key_pipeline() {
                        if j3 < s.len() && s[j3] == 91 && j3 + 1 > i {  // '['
                            match sp_parse_stages(s, j3 + 1, true, Seq::empty()) {
                                None => None,
                                Some((stages, ve)) => {
                                    let j4 = sp_ws(s, ve);
                                    if j4 >= s.len() {
                                        None
                                    } else if s[j4] == 125 {
                                        Some((Some(stages), j4 + 1))
                                    } else if s[j4] == 44 && j4 + 1 > i {
                                        sp_root_members(s, j4 + 1, false, Some(stages))
                                    } else {
                                        None
                                    }
                                },
                            }
                        } else {
                            None
                        }
                    } else {
                        if j3 < i || j3 > s.len() {
                            None
                        } else {
                            match sp_value_end(s, j3) {
                                None => None,
                                Some(ve) => {
                                    let j4 = sp_ws(s, ve);
                                    if j4 >= s.len() {
                                        None
                                    } else if s[j4] == 125 {
                                        Some((acc, j4 + 1))
                                    } else if s[j4] == 44 && j4 + 1 > i {
                                        sp_root_members(s, j4 + 1, false, acc)
                                    } else {
                                        None
                                    }
                                },
                            }
                        }
                    }
                }
            },
        }
    }
}

/// Read a whole pipeline description: a stage array, or an object with a
/// `pipeline` member holding one, with nothing but whitespace after it.
pub open spec fn sp_pipeline_doc(s: Seq<u8>) -> Option<Seq<SpStage>> {
    let i = sp_ws(s, 0);
    if i < 0 || i >= s.len() {
        None
    } else if s[i] == 91 {  // '['
        match sp_parse_stages(s, i + 1, true, Seq::empty()) {
            None => None,
            Some((stages, e)) => {
                if sp_ws(s, e) == s.len() {
                    Some(stages)
                } else {
                    None
                }
            },
        }
    } else if s[i] == 123 {  // '{'
        match sp_root_members(s, i + 1, true, None) {
            None => None,
            Some((acc, e)) => {
                if sp_ws(s, e) == s.len() {
                    acc
                } else {
                    None
                }
            },
        }
    } else {
        None
    }
}

/// Lower-case folding of an ASCII byte.
fn lower_byte(b: u8) -> (r: u8)
    ensures
        r == spec_lower(b),
{
    if 65 <= b && b <= 90 {
        b + 32
    } else {
        b
    }
}

/// Compare a byte string against a three-byte word.
fn eq3(e: &[u8], a: u8, b: u8, c: u8) -> (r: bool)
    ensures
        r == (e@ == seq![a, b, c]),
{
    let r = e.len() == 3 && e[0] == a && e[1] == b && e[2] == c;
    proof {
        if r {
            assert(e@ =~= seq![a, b, c]);
        }
        if e@ == seq![a, b, c] {
            assert(e@.len() == 3);
            assert(e@[0] == a && e@[1] == b && e@[2] == c);
        }
    }
    r
}

/// Whether a stage type names a reader outright.
fn is_readers_type(t: &[u8]) -> (r: bool)
    ensures
        r == spec_is_readers_type(t@),
{
    if t.len() < 8 {
        return false;
    }
    let r = t[0] == 114 && t[1] == 101 && t[2] == 97 && t[3] == 100 && t[4] == 101 && t[5] == 114
        && t[6] == 115 && t[7] == 46;
    proof {
        if r {
            assert(t@.subrange(0, 8) =~= readers_prefix());
        }
        if t@.subrange(0, 8) == readers_prefix() {
            assert(t@[0] == t@.subrange(0, 8)[0]);
            assert(t@[1] == t@.subrange(0, 8)[1]);
            assert(t@[2] == t@.subrange(0, 8)[2]);
            assert(t@[3] == t@.subrange(0, 8)[3]);
            assert(t@[4] == t@.subrange(0, 8)[4]);
            assert(t@[5] == t@.subrange(0, 8)[5]);
            assert(t@[6] == t@.subrange(0, 8)[6]);
            assert(t@[7] == t@.subrange(0, 8)[7]);
        }
    }
    r
}

/// Position of the last `.` among the first `n` bytes.
fn last_dot(f: &[u8], n: usize) -> (r: Option<usize>)
    requires
        n <= f@.len(),
    ensures
        r is None <==> sp_last_dot(f@, n as int - 1) is None,
        r matches Some(d) ==> sp_last_dot(f@, n as int - 1) == Some(d as int) && d < n,
    decreases n,
{
    if n == 0 {
        None
    } else if f[n - 1] == 46 {
        Some(n - 1)
    } else {
        last_dot(f, n - 1)
    }
}

/// Whether a filename's extension implies a reader.
fn filename_infers_reader(f: &[u8]) -> (r: bool)
    ensures
        r == spec_infers_reader(f@),
{
    let d = match last_dot(f, f.len()) {
        Some(d) => d,
        None => {
            return false;
        },
    };
    let mut ext: Vec<u8> = Vec::new();
    let mut k: usize = d + 1;
    while k < f.len()
        invariant
            d < k <= f@.len(),
            ext@ == f@.subrange(d + 1, k as int).map_values(|b: u8| spec_lower(b)),
        decreases f@.len() - k,
    {
        ext.push(lower_byte(f[k]));
        proof {
            assert(ext@ =~= f@.subrange(d + 1, k + 1).map_values(|b: u8| spec_lower(b)));
        }
        k = k + 1;
    }
    proof {
        assert(f@.subrange(d + 1, f@.len() as int) =~= f@.subrange(d + 1, k as int));
    }
    let e = ext.as_slice();
    eq3(e, 108, 97, 115) || eq3(e, 108, 97, 122) || eq3(e, 98, 112, 102) || eq3(e, 112, 108, 121)
        || eq3(e, 112, 99, 100) || eq3(e, 99, 115, 118) || eq3(e, 116, 120, 116)
}

/// The first fault a parsed stage list carries.
fn check_stages(stages: &Vec<Stage>) -> (r: Option<Error>)
    ensures
        r == sp_stages_error(spec_stage_seq(stages@)),
{
    let ghost sps = spec_stage_seq(stages@);
    if stages.len() == 0 {
        return Some(Error::EmptyPipeline);
    }
    let first_is_reader = match &stages[0].stage_type {
        Some(t) => is_readers_type(t.as_slice()),
        None => match &stages[0].filename {
            Some(f) => filename_infers_reader(f.as_slice()),
            None => false,
        },
    };
    proof {
        assert(sps[0] == stages@[0]@);
        assert(first_is_reader == spec_stage_is_reader(sps[0]));
    }
    if !first_is_reader {
        return Some(Error::NoReaderStage);
    }
    let mut i: usize = 1;
    while i < stages.len()
        invariant
            1 <= i <= stages@.len(),
            sps == spec_stage_seq(stages@),
            spec_stage_is_reader(sps[0]),
            forall|j: int| 1 <= j < i ==> spec_stage_known(#[trigger] sps[j]),
        decreases stages@.len() - i,
    {
        let known = match &stages[i].stage_type {
            Some(_) => true,
            None => match &stages[i].filename {
                Some(_) => true,
                None => false,
            },
        };
        proof {
            assert(sps[i as int] == stages@[i as int]@);
            assert(known == spec_stage_known(sps[i as int]));
        }
        if !known {
            return Some(Error::StageTypeUnknown);
        }
        i = i + 1;
    }
    None
}

/// Copy the contents of a string token: the bytes strictly between
/// positions `a` and `b`.
fn copy_bytes(s: &[u8], a: usize, b: usize) -> (r: Vec<u8>)
    requires
        a <= b <= s@.len(),
    ensures
        r@ == s@.subrange(a as int, b as int),
{
    slice_to_vec(slice_subrange(s, a, b))
}

/// Read the stage list starting inside `[` at `i`.
fn parse_stages(s: &[u8], i: usize, first: bool, acc: Vec<Stage>) -> (r: Option<(Vec<Stage>, usize)>)
    requires
        i <= s@.len(),
    ensures
        r is None <==> sp_parse_stages(s@, i as int, first, spec_stage_seq(acc@)) is None,
        r matches Some((v, e)) ==> sp_parse_stages(s@, i as int, first, spec_stage_seq(acc@))
            == Some((spec_stage_seq(v@), e as int)) && i < e <= s@.len(),
    decreases s@.len() - i,
{
    let ghost acc0 = spec_stage_seq(acc@);
    let j = skip_ws(s, i);
    if j >= s.len() {
        return None;
    }
    if s[j] == 93 {
        if first {
            return Some((acc, j + 1));
        } else {
            return None;
        }
    }
    if s[j] == 34 {
        let se = match skip_string(s, j + 1) {
            Some(se) => se,
            None => {
                return None;
            },
        };
        let name = copy_bytes(s, j + 1, se - 1);
        let st = Stage { stage_type: None, filename: Some(name) };
        let mut acc2 = acc;
        let j2 = skip_ws(s, se);
        if j2 >= s.len() {
            return None;
        }
        if s[j2] == 93 {
            acc2.push(st);
            proof {
                assert(spec_stage_seq(acc2@) =~= acc0.push(st@));
            }
            return Some((acc2, j2 + 1));
        }
        if s[j2] == 44 {
            acc2.push(st);
            proof {
                assert(spec_stage_seq(acc2@) =~= acc0.push(st@));
            }
            return parse_stages(s, j2 + 1, false, acc2);
        }
        return None;
    }
    if s[j] == 123 {
        let empty_stage = Stage { stage_type: None, filename: None };
        proof {
            assert(empty_stage@ == (SpStage { stage_type: None, filename: None }));
        }
        let (st, e) = match parse_stage_obj(s, j + 1, true, empty_stage) {
            Some(r) => r,
            None => {
                return None;
            },
        };
        let mut acc2 = acc;
        let j2 = skip_ws(s, e);
        if j2 >= s.len() {
            return None;
        }
        if s[j2] == 93 {
            acc2.push(st);
            proof {
                assert(spec_stage_seq(acc2@) =~= acc0.push(st@));
            }
            return Some((acc2, j2 + 1));
        }
        if s[j2] == 44 {
            acc2.push(st);
            proof {
                assert(spec_stage_seq(acc2@) =~= acc0.push(st@));
            }
            return parse_stages(s, j2 + 1, false, acc2);
        }
        return None;
    }
    None
}

/// Read the members of one stage object starting at `i`.
fn parse_stage_obj(s: &[u8], i: usize, first: bool, acc: Stage) -> (r: Option<(Stage, usize)>)
    requires
        i <= s@.len(),
    ensures
        r is None <==> sp_parse_stage_obj(s@, i as int, first, acc@) is None,
        r matches Some((st, e)) ==> sp_parse_stage_obj(s@, i as int, first, acc@) == Some(
            (st@, e as int),
        ) && i < e <= s@.len(),
    decreases s@.len() - i,
{
    let j = skip_ws(s, i);
    if j >= s.len() {
        return None;
    }
    if s[j] == 125 {
        if first {
            return Some((acc, j + 1));
        } else {
            return None;
        }
    }
    if s[j] != 34 {
        return None;
    }
    let ke = match skip_string(s, j + 1) {
        Some(ke) => ke,
        None => {
            return None;
        },
    };
    let j2 = skip_ws(s, ke);
    if j2 >= s.len() {
        return None;
    }
    if s[j2] != 58 {
        return None;
    }
    let j3 = skip_ws(s, j2 + 1);
    if j3 < s.len() && s[j3] == 34 {
        let ve = match skip_string(s, j3 + 1) {
            Some(ve) => ve,
            None => {
                return None;
            },
        };
        let key_is_type = key_eq_type(s, j + 1, ke - 1);
        let key_is_filename = key_eq_filename(s, j + 1, ke - 1);
        let acc2 = if key_is_type {
            let v = copy_bytes(s, j3 + 1, ve - 1);
            Stage { stage_type: Some(v), filename: acc.filename }
        } else if key_is_filename {
            let v = copy_bytes(s, j3 + 1, ve - 1);
            Stage { stage_type: acc.stage_type, filename: Some(v) }
        } else {
            acc
        };
        let j4 = skip_ws(s, ve);
        if j4 >= s.len() {
            return None;
        }
        if s[j4] == 125 {
            return Some((acc2, j4 + 1));
        }
        if s[j4] == 44 {
            return parse_stage_obj(s, j4 + 1, false, acc2);
        }
        return None;
    }
    let ve = match skip_value(s, j3) {
        Some(ve) => ve,
        None => {
            return None;
        },
    };
    let j4 = skip_ws(s, ve);
    if j4 >= s.len() {
        return None;
    }
    if s[j4] == 125 {
        return Some((acc, j4 + 1));
    }
    if s[j4] == 44 {
        return parse_stage_obj(s, j4 + 1, false, acc);
    }
    None
}

/// Whether the bytes from `a` to `b` spell `type`.
fn key_eq_type(s: &[u8], a: usize, b: usize) -> (r: bool)
    requires
        a <= b <= s@.len(),
    ensures
        r == (s@.subrange(a as int, b as int) == key_type()),
{
    let r = b - a == 4 && s[a] == 116 && s[a + 1] == 121 && s[a + 2] == 112 && s[a + 3] == 101;
    proof {
        let k = s@.subrange(a as int, b as int);
        if r {
            assert(k =~= key_type());
        }
        if k == key_type() {
            assert(k.len() == 4);
            assert(s@[a as int] == k[0] && s@[a as int + 1] == k[1] && s@[a as int + 2] == k[2]
                && s@[a as int + 3] == k[3]);
        }
    }
    r
}

/// Whether the bytes from `a` to `b` spell `filename`.
fn key_eq_filename(s: &[u8], a: usize, b: usize) -> (r: bool)
    requires
        a <= b <= s@.len(),
    ensures
        r == (s@.subrange(a as int, b as int) == key_filename()),
{
    let r = b - a == 8 && s[a] == 102 && s[a + 1] == 105 && s[a + 2] == 108 && s[a + 3] == 101
        && s[a + 4] == 110 && s[a + 5] == 97 && s[a + 6] == 109 && s[a + 7] == 101;
    proof {
        let k = s@.subrange(a as int, b as int);
        if r {
            assert(k =~= key_filename());
        }
        if k == key_filename() {
            assert(k.len() == 8);
            assert(s@[a as int] == k[0] && s@[a as int + 1] == k[1] && s@[a as int + 2] == k[2]
                && s@[a as int + 3] == k[3] && s@[a as int + 4] == k[4] && s@[a as int + 5] == k[5]
                && s@[a as int + 6] == k[6] && s@[a as int + 7] == k[7]);
        }
    }
    r
}

/// Whether the bytes from `a` to `b` spell `pipeline`.
fn key_eq_pipeline(s: &[u8], a: usize, b: usize) -> (r: bool)
    requires
        a <= b <= s@.len(),
    ensures
        r == (s@.subrange(a as int, b as int) == key_pipeline()),
{
    let r = b - a == 8 && s[a] == 112 && s[a + 1] == 105 && s[a + 2] == 112 && s[a + 3] == 101
        && s[a + 4] == 108 && s[a + 5] == 105 && s[a + 6] == 110 && s[a + 7] == 101;
    proof {
        let k = s@.subrange(a as int, b as int);
        if r {
            assert(k =~= key_pipeline());
        }
        if k == key_pipeline() {
            assert(k.len() == 8);
            assert(s@[a as int] == k[0] && s@[a as int + 1] == k[1] && s@[a as int + 2] == k[2]
                && s@[a as int + 3] == k[3] && s@[a as int + 4] == k[4] && s@[a as int + 5] == k[5]
                && s@[a as int + 6] == k[6] && s@[a as int + 7] == k[7]);
        }
    }
    r
}

/// Read the members of the root object starting at `i`.
fn root_members(s: &[u8], i: usize, first: bool, acc: Option<Vec<Stage>>) -> (r: Option<
    (Option<Vec<Stage>>, usize),
>)
    requires
        i <= s@.len(),
    ensures
        r is None <==> sp_root_members(s@, i as int, first, spec_opt_stage_seq(acc)) is None,
        r matches Some((v, e)) ==> sp_root_members(s@, i as int, first, spec_opt_stage_seq(acc))
            == Some((spec_opt_stage_seq(v), e as int)) && i < e <= s@.len(),
    decreases s@.len() - i,
{
    let j = skip_ws(s, i);
    if j >= s.len() {
        return None;
    }
    if s[j] == 125 {
        if first {
            return Some((acc, j + 1));
        } else {
            return None;
        }
    }
    if s[j] != 34 {
        return None;
    }
    let ke = match skip_string(s, j + 1) {
        Some(ke) => ke,
        None => {
            return None;
        },
    };
    let j2 = skip_ws(s, ke);
    if j2 >= s.len() {
        return None;
    }
    if s[j2] != 58 {
        return None;
    }
    let j3 = skip_ws(s, j2 + 1);
    if key_eq_pipeline(s, j + 1, ke - 1) {
        if j3 < s.len() && s[j3] == 91 {
            let (stages, ve) = match parse_stages(s, j3 + 1, true, Vec::new()) {
                Some(r) => r,
                None => {
                    proof {
                        assert(spec_stage_seq(Seq::<Stage>::empty()) =~= Seq::<SpStage>::empty());
                    }
                    return None;
                },
            };
            proof {
                assert(spec_stage_seq(Seq::<Stage>::empty()) =~= Seq::<SpStage>::empty());
            }
            let j4 = skip_ws(s, ve);
            if j4 >= s.len() {
                return None;
            }
            if s[j4] == 125 {
                return Some((Some(stages), j4 + 1));
            }
            if s[j4] == 44 {
                return root_members(s, j4 + 1, false, Some(stages));
            }
            return None;
        }
        return None;
    }
    let ve = match skip_value(s, j3) {
        Some(ve) => ve,
        None => {
            return None;
        },
    };
    let j4 = skip_ws(s, ve);
    if j4 >= s.len() {
        return None;
    }
    if s[j4] == 125 {
        return Some((acc, j4 + 1));
    }
    if s[j4] == 44 {
        return root_members(s, j4 + 1, false, acc);
    }
    None
}

/// The stage list an optional stage vector stands for.
pub open spec fn spec_opt_stage_seq(acc: Option<Vec<Stage>>) -> Option<Seq<SpStage>> {
    match acc {
        Some(v) => Some(spec_stage_seq(v@)),
        None => None,
    }
}

/// Read a whole pipeline description.
fn parse_pipeline_doc(s: &[u8]) -> (r: Option<Vec<Stage>>)
    ensures
        r is None <==> sp_pipeline_doc(s@) is None,
        r matches Some(v) ==> sp_pipeline_doc(s@) == Some(spec_stage_seq(v@)),
{
    let i = skip_ws(s, 0);
    if i >= s.len() {
        return None;
    }
    if s[i] == 91 {
        let (stages, e) = match parse_stages(s, i + 1, true, Vec::new()) {
            Some(r) => r,
            None => {
                proof {
                    assert(spec_stage_seq(Seq::<Stage>::empty()) =~= Seq::<SpStage>::empty());
                }
                return None;
            },
        };
        proof {
            assert(spec_stage_seq(Seq::<Stage>::empty()) =~= Seq::<SpStage>::empty());
        }
        if skip_ws(s, e) == s.len() {
            return Some(stages);
        }
        return None;
    }
    if s[i] == 123 {
        let (acc, e) = match root_members(s, i + 1, true, None) {
            Some(r) => r,
            None => {
                return None;
            },
        };
        if skip_ws(s, e) == s.len() {
            return acc;
        }
        return None;
    }
    None
}

/// A validated pipeline, ready to hand to the engine.
#[derive(Clone, Debug)]
pub struct Pipeline {
    json: String,
    stages: Vec<Stage>,
}

impl Pipeline {
    /// The pipeline text the pipeline was read from.
    pub closed spec fn spec_json(self) -> Seq<char> {
        self.json@
    }

    /// The stages the pipeline text describes.
    pub closed spec fn spec_stages(self) -> Seq<SpStage> {
        spec_stage_seq(self.stages@)
    }

    /// The stage list parsed cleanly and carries no fault.
    pub open spec fn wf(self) -> bool {
        sp_stages_error(self.spec_stages()) is None
    }

    /// Read and validate a pipeline description. Malformed JSON is
    /// refused; so is a stage list whose first stage resolves to no
    /// reader, or a later stage of no tellable kind.
    pub fn new(json: &str) -> (r: Result<Pipeline, Error>)
        ensures
            (match sp_pipeline_doc(json.spec_bytes()) {
                Option::None => r == Err::<Pipeline, Error>(Error::PipelineSyntax),
                Option::Some(stages) => (match sp_stages_error(stages) {
                    Option::Some(e) => r == Err::<Pipeline, Error>(e),
                    Option::None => r matches Ok(p) && p.wf() && p.spec_stages() == stages
                        && p.spec_json() == json@,
                }),
            }),
    {
        let bytes = json.as_bytes();
        let stages = match parse_pipeline_doc(bytes) {
            Some(stages) => stages,
            None => {
                return Err(Error::PipelineSyntax);
            },
        };
        match check_stages(&stages) {
            Some(e) => Err(e),
            None => Ok(Pipeline { json: json.to_owned(), stages }),
        }
    }

    /// The pipeline text.
    pub fn json(&self) -> (r: &str)
        ensures
            r@ == self.spec_json(),
    {
        self.json.as_str()
    }

    /// How many stages the pipeline holds.
    pub fn stage_count(&self) -> (r: usize)
        ensures
            r == self.spec_stages().len(),
    {
        self.stages.len()
    }

    /// What validation read off each stage, in pipeline order.
    pub fn stages(&self) -> (r: &Vec<Stage>)
        ensures
            spec_stage_seq(r@) == self.spec_stages(),
    {
        &self.stages
    }
}

/// A pipeline after execution: the point count the run reported and the
/// results the engine handed back.
#[derive(Clone, Debug)]
pub struct ExecutedPipeline {
    pipeline: Pipeline,
    points: u64,
    views: crate::point_view::PointViewSet,
    metadata: String,
    schema: String,
    pipeline_json: String,
}

impl ExecutedPipeline {
    /// The pipeline that was run.
    pub closed spec fn spec_pipeline(self) -> Pipeline {
        self.pipeline
    }

    /// The point count the run reported.
    pub closed spec fn spec_point_count(self) -> u64 {
        self.points
    }

    /// The point views the run produced.
    pub closed spec fn spec_views(self) -> crate::point_view::PointViewSet {
        self.views
    }

    /// The metadata the run computed.
    pub closed spec fn spec_metadata(self) -> Seq<char> {
        self.metadata@
    }

    /// The schema the run computed.
    pub closed spec fn spec_schema(self) -> Seq<char> {
        self.schema@
    }

    /// The canonical pipeline text the run reported.
    pub closed spec fn spec_pipeline_json(self) -> Seq<char> {
        self.pipeline_json@
    }

    /// Assemble the record of a finished run from what the engine
    /// reported.
    pub fn from_results(
        pipeline: Pipeline,
        points: u64,
        views: crate::point_view::PointViewSet,
        metadata: String,
        schema: String,
        pipeline_json: String,
    ) -> (r: ExecutedPipeline)
        ensures
            r.spec_pipeline() == pipeline,
            r.spec_point_count() == points,
            r.spec_views() == views,
            r.spec_metadata() == metadata@,
            r.spec_schema() == schema@,
            r.spec_pipeline_json() == pipeline_json@,
    {
        ExecutedPipeline { pipeline, points, views, metadata, schema, pipeline_json }
    }

    /// The number of points the run produced.
    pub fn point_count(&self) -> (r: u64)
        ensures
            r == self.spec_point_count(),
    {
        self.points
    }

    /// The point views the run produced.
    pub fn point_views(&self) -> (r: &crate::point_view::PointViewSet)
        ensures
            *r == self.spec_views(),
    {
        &self.views
    }

    /// The metadata the run computed.
    pub fn metadata(&self) -> (r: Result<String, Error>)
        ensures
            r matches Ok(s) && s@ == self.spec_metadata(),
    {
        Ok(self.metadata.clone())
    }

    /// The canonical pipeline text of the finished run.
    pub fn pipeline_json(&self) -> (r: Result<String, Error>)
        ensures
            r matches Ok(s) && s@ == self.spec_pipeline_json(),
    {
        Ok(self.pipeline_json.clone())
    }

    /// The schema the run computed.
    pub fn schema(&self) -> (r: Result<String, Error>)
        ensures
            r matches Ok(s) && s@ == self.spec_schema(),
    {
        Ok(self.schema.clone())
    }
}

} // verus!
