//! Whether an Avro schema, in the JSON that `apache_avro` writes of it, refers to
//! a named type by its name.
//!
//! `apache_avro` writes a named type out in full where it is defined and writes
//! each later use of it as a bare string, its full name. Such a string can only
//! stand where a schema stands: as the `"type"` of a field, as the `"items"` of an
//! array, as the `"values"` of a map, as a branch of a union (an element of an
//! array), or as the whole text. The check below goes through the string tokens of
//! the text and accepts only where every token in those places names a primitive
//! type (or, as a `"type"`, a kind of complex type), and no named type carries the
//! name of a primitive or of a kind. It rejects any text with a backslash, so that
//! every quote opens or closes a string. It may reject schemas without references
//! (an enum default or a string in a custom attribute array, say); it accepts none
//! with one.
use vstd::prelude::*;
use vstd::string::*;

verus! {

/// `"`
pub open spec fn quote() -> u8 {
    34
}

/// Whether the text holds a backslash.
pub open spec fn has_backslash(s: Seq<u8>) -> bool {
    exists|i: int| 0 <= i < s.len() && s[i] == 92u8
}

/// Whether the byte at `i` is `b`.
pub open spec fn byte_at(s: Seq<u8>, i: int, b: u8) -> bool {
    0 <= i < s.len() && s[i] == b
}

/// Whether the bytes just before `i` are `w`.
pub open spec fn preceded_by(s: Seq<u8>, i: int, w: Seq<u8>) -> bool {
    w.len() <= i <= s.len() && s.subrange(i - w.len(), i) == w
}

/// The index of the first quote at or after `i`, or the length of the text where there is none.
pub open spec fn next_quote(s: Seq<u8>, i: int) -> int
    decreases s.len() - i,
{
    if i < 0 || i >= s.len() {
        s.len() as int
    } else if s[i] == quote() {
        i
    } else {
        next_quote(s, i + 1)
    }
}

pub open spec fn name_key() -> Seq<u8> {
    seq![34u8, 110, 97, 109, 101, 34, 58]
}

pub open spec fn type_key() -> Seq<u8> {
    seq![34u8, 116, 121, 112, 101, 34, 58]
}

pub open spec fn items_key() -> Seq<u8> {
    seq![34u8, 105, 116, 101, 109, 115, 34, 58]
}

pub open spec fn values_key() -> Seq<u8> {
    seq![34u8, 118, 97, 108, 117, 101, 115, 34, 58]
}

pub open spec fn symbols_word() -> Seq<u8> {
    seq![115u8, 121, 109, 98, 111, 108, 115]
}

pub open spec fn aliases_word() -> Seq<u8> {
    seq![97u8, 108, 105, 97, 115, 101, 115]
}

/// The names of the primitive types: null, boolean, int, long, float, double, bytes, string.
pub open spec fn is_primitive(t: Seq<u8>) -> bool {
    ||| t == seq![110u8, 117, 108, 108]
    ||| t == seq![98u8, 111, 111, 108, 101, 97, 110]
    ||| t == seq![105u8, 110, 116]
    ||| t == seq![108u8, 111, 110, 103]
    ||| t == seq![102u8, 108, 111, 97, 116]
    ||| t == seq![100u8, 111, 117, 98, 108, 101]
    ||| t == seq![98u8, 121, 116, 101, 115]
    ||| t == seq![115u8, 116, 114, 105, 110, 103]
}

/// The kinds of complex types: record, enum, fixed, array, map.
pub open spec fn is_kind(t: Seq<u8>) -> bool {
    ||| t == seq![114u8, 101, 99, 111, 114, 100]
    ||| t == seq![101u8, 110, 117, 109]
    ||| t == seq![102u8, 105, 120, 101, 100]
    ||| t == seq![97u8, 114, 114, 97, 121]
    ||| t == seq![109u8, 97, 112]
}

/// The bytes of an ASCII text.
pub open spec fn ascii_bytes(w: Seq<char>) -> Seq<u8> {
    w.map_values(|c: char| c as u8)
}

/// The names of Avro's primitive types, as the specification lists them.
pub open spec fn avro_primitive_name(w: Seq<char>) -> bool {
    ||| w == "null"@
    ||| w == "boolean"@
    ||| w == "int"@
    ||| w == "long"@
    ||| w == "float"@
    ||| w == "double"@
    ||| w == "bytes"@
    ||| w == "string"@
}

/// The kinds of Avro's complex types that a written schema names as its `"type"`.
pub open spec fn avro_kind_name(w: Seq<char>) -> bool {
    ||| w == "record"@
    ||| w == "enum"@
    ||| w == "fixed"@
    ||| w == "array"@
    ||| w == "map"@
}

/// Every primitive type name of Avro is taken for a primitive and not for a kind;
/// every kind is taken for a kind and not for a primitive.
pub proof fn law_primitive_and_kind_names(w: Seq<char>)
    ensures
        avro_primitive_name(w) ==> is_primitive(ascii_bytes(w)) && !is_kind(ascii_bytes(w)),
        avro_kind_name(w) ==> is_kind(ascii_bytes(w)) && !is_primitive(ascii_bytes(w)),
{
    reveal_strlit("null");
    reveal_strlit("boolean");
    reveal_strlit("int");
    reveal_strlit("long");
    reveal_strlit("float");
    reveal_strlit("double");
    reveal_strlit("bytes");
    reveal_strlit("string");
    reveal_strlit("record");
    reveal_strlit("enum");
    reveal_strlit("fixed");
    reveal_strlit("array");
    reveal_strlit("map");
    if w == "null"@ {
        assert(ascii_bytes(w) =~= seq![110u8, 117, 108, 108]);
    } else if w == "boolean"@ {
        assert(ascii_bytes(w) =~= seq![98u8, 111, 111, 108, 101, 97, 110]);
    } else if w == "int"@ {
        assert(ascii_bytes(w) =~= seq![105u8, 110, 116]);
    } else if w == "long"@ {
        assert(ascii_bytes(w) =~= seq![108u8, 111, 110, 103]);
    } else if w == "float"@ {
        assert(ascii_bytes(w) =~= seq![102u8, 108, 111, 97, 116]);
    } else if w == "double"@ {
        assert(ascii_bytes(w) =~= seq![100u8, 111, 117, 98, 108, 101]);
    } else if w == "bytes"@ {
        assert(ascii_bytes(w) =~= seq![98u8, 121, 116, 101, 115]);
    } else if w == "string"@ {
        assert(ascii_bytes(w) =~= seq![115u8, 116, 114, 105, 110, 103]);
    } else if w == "record"@ {
        assert(ascii_bytes(w) =~= seq![114u8, 101, 99, 111, 114, 100]);
    } else if w == "enum"@ {
        assert(ascii_bytes(w) =~= seq![101u8, 110, 117, 109]);
    } else if w == "fixed"@ {
        assert(ascii_bytes(w) =~= seq![102u8, 105, 120, 101, 100]);
    } else if w == "array"@ {
        assert(ascii_bytes(w) =~= seq![97u8, 114, 114, 97, 121]);
    } else if w == "map"@ {
        assert(ascii_bytes(w) =~= seq![109u8, 97, 112]);
    }
}

/// A primitive type name is accepted wherever a string value stands, but as the
/// name of a named type: as a `"type"`, an `"items"`, a `"values"`, a union's
/// branch or the whole schema.
pub proof fn law_primitive_names_stand_anywhere(s: Seq<u8>, i: int, w: Seq<char>)
    requires
        avro_primitive_name(w),
        !preceded_by(s, i, name_key()),
    ensures
        value_ok(s, i, ascii_bytes(w)),
{
    law_primitive_and_kind_names(w);
}

/// Whether the string value `t`, whose opening quote is at `i`, may stand where it stands.
pub open spec fn value_ok(s: Seq<u8>, i: int, t: Seq<u8>) -> bool {
    if preceded_by(s, i, name_key()) {
        !is_primitive(t) && !is_kind(t)
    } else if preceded_by(s, i, type_key()) {
        is_primitive(t) || is_kind(t)
    } else if preceded_by(s, i, items_key()) || preceded_by(s, i, values_key()) {
        is_primitive(t)
    } else if i == 0 || byte_at(s, i - 1, 91u8) || byte_at(s, i - 1, 44u8) {
        is_primitive(t)
    } else {
        true
    }
}

/// The next quote lies at or after `i`, within the text, and is a quote.
pub proof fn lemma_next_quote(s: Seq<u8>, i: int)
    requires
        0 <= i,
    ensures
        i <= next_quote(s, i) <= s.len() || (i > s.len() && next_quote(s, i) == s.len()),
        next_quote(s, i) < s.len() ==> s[next_quote(s, i)] == quote(),
    decreases s.len() - i,
{
    if i < s.len() && s[i] != quote() {
        lemma_next_quote(s, i + 1);
    }
}

/// Whether the tokens from `i` on are all accepted; `skipping` holds inside the
/// array of an enum's symbols or of aliases, whose strings are names of nothing.
pub open spec fn tokens_ok(s: Seq<u8>, i: int, skipping: bool) -> bool
    decreases s.len() - i,
{
    if i < 0 || i >= s.len() {
        true
    } else if s[i] == quote() {
        let j = next_quote(s, i + 1);
        proof {
            lemma_next_quote(s, i + 1);
        }
        if j >= s.len() {
            false
        } else {
            let t = s.subrange(i + 1, j);
            if byte_at(s, j + 1, 58u8) {
                tokens_ok(s, j + 1, (t == symbols_word() || t == aliases_word()) && byte_at(s, j + 2, 91u8))
            } else {
                (skipping || value_ok(s, i, t)) && tokens_ok(s, j + 1, skipping)
            }
        }
    } else if s[i] == 93u8 {
        tokens_ok(s, i + 1, false)
    } else {
        tokens_ok(s, i + 1, skipping)
    }
}

/// The next quote after a stretch without quotes is the one that ends it.
proof fn lemma_next_quote_at(s: Seq<u8>, i: int, j: int)
    requires
        0 <= i <= j < s.len(),
        forall|k: int| i <= k < j ==> s[k] != quote(),
        s[j] == quote(),
    ensures
        next_quote(s, i) == j,
    decreases j - i,
{
    if i < j {
        lemma_next_quote_at(s, i + 1, j);
    }
}

/// How the scan goes over a string token `t` whose opening quote is at `i`: a key
/// (followed by a colon) sets whether the strings after it are skipped; a value
/// must be accepted where it stands, unless they are.
proof fn lemma_token(s: Seq<u8>, i: int, t: Seq<u8>, skipping: bool)
    requires
        0 <= i,
        i + t.len() + 2 < s.len(),
        s[i] == quote(),
        s.subrange(i + 1, i + 1 + t.len()) == t,
        forall|k: int| 0 <= k < t.len() ==> t[k] != quote(),
        s[i + 1 + t.len()] == quote(),
    ensures
        tokens_ok(s, i, skipping) == if s[i + 2 + t.len()] == 58u8 {
            tokens_ok(
                s,
                i + 2 + t.len(),
                (t == symbols_word() || t == aliases_word()) && byte_at(s, i + 3 + t.len(), 91u8),
            )
        } else {
            (skipping || value_ok(s, i, t)) && tokens_ok(s, i + 2 + t.len(), skipping)
        },
{
    assert forall|k: int| i + 1 <= k < i + 1 + t.len() implies s[k] != quote() by {
        assert(s.subrange(i + 1, i + 1 + t.len())[k - (i + 1)] == s[k]);
    }
    lemma_next_quote_at(s, i + 1, i + 1 + t.len());
}

/// `{"type":"record","name":"`
pub open spec fn record_start() -> Seq<u8> {
    seq![123u8, 34, 116, 121, 112, 101, 34, 58, 34, 114, 101, 99, 111, 114, 100, 34, 44, 34, 110, 97, 109, 101, 34, 58, 34]
}

/// `","fields":[{"name":"`
pub open spec fn fields_start() -> Seq<u8> {
    seq![34u8, 44, 34, 102, 105, 101, 108, 100, 115, 34, 58, 91, 123, 34, 110, 97, 109, 101, 34, 58, 34]
}

/// `","type":["null","`
pub open spec fn union_start() -> Seq<u8> {
    seq![34u8, 44, 34, 116, 121, 112, 101, 34, 58, 91, 34, 110, 117, 108, 108, 34, 44, 34]
}

/// `"]}]}`
pub open spec fn union_end() -> Seq<u8> {
    seq![34u8, 93, 125, 93, 125]
}

/// The JSON that `apache_avro` writes of a record named `name` with one field
/// named `field`, optional, of the primitive type `primitive`:
/// `{"type":"record","name":"<name>","fields":[{"name":"<field>","type":["null","<primitive>"]}]}`.
pub open spec fn optional_field_record(name: Seq<u8>, field: Seq<u8>, primitive: Seq<u8>) -> Seq<u8> {
    record_start() + name + fields_start() + field + union_start() + primitive + union_end()
}

/// A name as the check reads it: no quote or backslash in it, and neither a
/// primitive type nor a kind.
pub open spec fn plain_name(n: Seq<u8>) -> bool {
    &&& forall|k: int| 0 <= k < n.len() ==> n[k] != quote() && n[k] != 92u8
    &&& !is_primitive(n)
    &&& !is_kind(n)
}

proof fn lemma_preceded_last(s: Seq<u8>, i: int, w: Seq<u8>)
    requires
        w.len() > 0,
        preceded_by(s, i, w),
    ensures
        s[i - 1] == w[w.len() - 1],
{
    assert(s.subrange(i - w.len(), i)[w.len() - 1] == s[i - 1]);
}

/// A primitive type name holds no quote and no backslash.
proof fn lemma_primitive_bytes(p: Seq<u8>)
    requires
        is_primitive(p),
    ensures
        forall|k: int| 0 <= k < p.len() ==> p[k] != quote() && p[k] != 92u8,
{
    assert forall|k: int| 0 <= k < p.len() implies p[k] != quote() && p[k] != 92u8 by {
        if p == seq![110u8, 117, 108, 108] {
        } else if p == seq![98u8, 111, 111, 108, 101, 97, 110] {
        } else if p == seq![105u8, 110, 116] {
        } else if p == seq![108u8, 111, 110, 103] {
        } else if p == seq![102u8, 108, 111, 97, 116] {
        } else if p == seq![100u8, 111, 117, 98, 108, 101] {
        } else if p == seq![98u8, 121, 116, 101, 115] {
        } else {
        }
    }
}

/// Where the pieces of an optional-field record's JSON stand in it.
proof fn lemma_layout(name: Seq<u8>, field: Seq<u8>, prim: Seq<u8>)
    ensures
        ({
            let s = optional_field_record(name, field, prim);
            let b = 25 + name.len() as int;
            let c = b + 21 + field.len() as int;
            let d = c + 18 + prim.len() as int;
            &&& s.len() == d + 5
            &&& forall|k: int| 0 <= k < 25 ==> #[trigger] s[k] == record_start()[k]
            &&& forall|k: int| 0 <= k < name.len() ==> #[trigger] name[k] == s[25 + k]
            &&& forall|k: int| 0 <= k < 21 ==> #[trigger] fields_start()[k] == s[b + k]
            &&& forall|k: int| 0 <= k < field.len() ==> #[trigger] field[k] == s[b + 21 + k]
            &&& forall|k: int| 0 <= k < 18 ==> #[trigger] union_start()[k] == s[c + k]
            &&& forall|k: int| 0 <= k < prim.len() ==> #[trigger] prim[k] == s[c + 18 + k]
            &&& forall|k: int| 0 <= k < 5 ==> #[trigger] union_end()[k] == s[d + k]
        }),
{
}

/// The record's JSON holds no backslash.
proof fn lemma_no_backslash(name: Seq<u8>, field: Seq<u8>, prim: Seq<u8>)
    requires
        plain_name(name),
        plain_name(field),
        is_primitive(prim),
    ensures
        !has_backslash(optional_field_record(name, field, prim)),
{
    lemma_layout(name, field, prim);
    lemma_primitive_bytes(prim);
    let s = optional_field_record(name, field, prim);
    let b = 25 + name.len() as int;
    let c0 = b + 21;
    let c = c0 + field.len() as int;
    let d0 = c + 18;
    let d = d0 + prim.len() as int;
    assert(forall|k: int| 0 <= k < 25 ==> record_start()[k] != 92u8);
    assert(forall|k: int| 0 <= k < 21 ==> fields_start()[k] != 92u8);
    assert(forall|k: int| 0 <= k < 18 ==> union_start()[k] != 92u8);
    assert(forall|k: int| 0 <= k < 5 ==> union_end()[k] != 92u8);
    assert forall|k: int| 0 <= k < s.len() implies s[k] != 92u8 by {
        if k < 25 {
        } else if k < b {
            assert(name[k - 25] == s[25 + (k - 25)]);
        } else if k < c0 {
            assert(fields_start()[k - b] == s[b + (k - b)]);
        } else if k < c {
            assert(field[k - c0] == s[c0 + (k - c0)]);
        } else if k < d0 {
            assert(union_start()[k - c] == s[c + (k - c)]);
        } else if k < d {
            assert(prim[k - d0] == s[d0 + (k - d0)]);
        } else {
            assert(union_end()[k - d] == s[d + (k - d)]);
        }
    }
}

/// The scan over `{"type":"record","name":"<name>",`.
#[verifier::rlimit(100)]
#[verifier::spinoff_prover]
proof fn lemma_scan_record_name(name: Seq<u8>, field: Seq<u8>, prim: Seq<u8>)
    requires
        plain_name(name),
    ensures
        tokens_ok(optional_field_record(name, field, prim), 0, false) == tokens_ok(
            optional_field_record(name, field, prim),
            25 + name.len() as int + 2,
            false,
        ),
{
    lemma_layout(name, field, prim);
    let s = optional_field_record(name, field, prim);
    let l1 = record_start();
    let nn = name.len() as int;
    let type_w = seq![116u8, 121, 112, 101];
    let record_w = seq![114u8, 101, 99, 111, 114, 100];
    let name_w = seq![110u8, 97, 109, 101];
    assert(s[0] == l1[0] && s[1] == l1[1] && s[6] == l1[6] && s[7] == l1[7] && s[8] == l1[8]);
    assert(s[15] == l1[15] && s[16] == l1[16] && s[17] == l1[17] && s[22] == l1[22] && s[23] == l1[23]
        && s[24] == l1[24]);
    assert(fields_start()[0] == s[25 + nn + 0] && fields_start()[1] == s[25 + nn + 1]);
    assert(forall|k: int| 0 <= k < 4 ==> type_w[k] != 34u8);
    assert(forall|k: int| 0 <= k < 6 ==> record_w[k] != 34u8);
    assert(forall|k: int| 0 <= k < 4 ==> name_w[k] != 34u8);
    assert(type_w.len() != symbols_word().len() && name_w.len() != symbols_word().len()
        && symbols_word().len() == aliases_word().len());
    assert(s.subrange(2, 6) =~= type_w);
    lemma_token(s, 1, type_w, false);
    assert(s.subrange(9, 15) =~= record_w);
    assert(s.subrange(1, 8) =~= type_key());
    assert(s.subrange(1, 8)[1] != name_key()[1]);
    lemma_token(s, 8, record_w, false);
    assert(is_kind(record_w));
    assert(value_ok(s, 8, record_w));
    assert(s.subrange(18, 22) =~= name_w);
    lemma_token(s, 17, name_w, false);
    assert(s.subrange(25, 25 + nn) =~= name);
    assert(s.subrange(17, 24) =~= name_key());
    lemma_token(s, 24, name, false);
    assert(value_ok(s, 24, name));
}

/// The scan over `"fields":[{`.
#[verifier::rlimit(100)]
#[verifier::spinoff_prover]
proof fn lemma_scan_fields_key(name: Seq<u8>, field: Seq<u8>, prim: Seq<u8>)
    ensures
        ({
            let b = 25 + name.len() as int;
            tokens_ok(optional_field_record(name, field, prim), b + 2, false) == tokens_ok(
                optional_field_record(name, field, prim),
                b + 13,
                false,
            )
        }),
{
    lemma_layout(name, field, prim);
    let s = optional_field_record(name, field, prim);
    let l2 = fields_start();
    let b = 25 + name.len() as int;
    let fields_w = seq![102u8, 105, 101, 108, 100, 115];
    assert(l2[2] == s[b + 2] && l2[9] == s[b + 9] && l2[10] == s[b + 10] && l2[11] == s[b + 11] && l2[12]
        == s[b + 12] && l2[13] == s[b + 13]);
    assert(forall|k: int| 0 <= k < 6 ==> fields_w[k] != 34u8);
    assert(fields_w.len() != symbols_word().len() && symbols_word().len() == aliases_word().len());
    assert forall|k: int| 0 <= k < 6 implies #[trigger] s.subrange(b + 3, b + 9)[k] == fields_w[k] by {
        assert(l2[3 + k] == s[b + (3 + k)]);
    }
    assert(s.subrange(b + 3, b + 9) =~= fields_w);
    lemma_token(s, b + 2, fields_w, false);
    assert(tokens_ok(s, b + 2, false) == tokens_ok(s, b + 10, false));
    assert(tokens_ok(s, b + 12, false) == tokens_ok(s, b + 13, false));
    assert(tokens_ok(s, b + 11, false) == tokens_ok(s, b + 12, false));
    assert(tokens_ok(s, b + 10, false) == tokens_ok(s, b + 11, false));
}

/// The scan over `"name":"<field>",`.
#[verifier::rlimit(100)]
#[verifier::spinoff_prover]
proof fn lemma_scan_field_name(name: Seq<u8>, field: Seq<u8>, prim: Seq<u8>)
    requires
        plain_name(field),
    ensures
        ({
            let b = 25 + name.len() as int;
            tokens_ok(optional_field_record(name, field, prim), b + 13, false) == tokens_ok(
                optional_field_record(name, field, prim),
                b + 21 + field.len() as int + 2,
                false,
            )
        }),
{
    lemma_layout(name, field, prim);
    let s = optional_field_record(name, field, prim);
    let l2 = fields_start();
    let b = 25 + name.len() as int;
    let c0 = b + 21;
    let ff = field.len() as int;
    let name_w = seq![110u8, 97, 109, 101];
    assert(l2[13] == s[b + 13] && l2[18] == s[b + 18] && l2[19] == s[b + 19] && l2[20] == s[b + 20]);
    assert(union_start()[0] == s[c0 + ff + 0] && union_start()[1] == s[c0 + ff + 1]);
    assert(forall|k: int| 0 <= k < 4 ==> name_w[k] != 34u8);
    assert(name_w.len() != symbols_word().len() && symbols_word().len() == aliases_word().len());
    assert forall|k: int| 0 <= k < 4 implies #[trigger] s.subrange(b + 14, b + 18)[k] == name_w[k] by {
        assert(l2[14 + k] == s[b + (14 + k)]);
    }
    assert(s.subrange(b + 14, b + 18) =~= name_w);
    lemma_token(s, b + 13, name_w, false);
    assert(tokens_ok(s, b + 13, false) == tokens_ok(s, b + 19, false));
    assert(tokens_ok(s, b + 19, false) == tokens_ok(s, b + 20, false));
    assert(s.subrange(c0, c0 + ff) =~= field);
    assert forall|k: int| 0 <= k < 7 implies #[trigger] s.subrange(b + 13, b + 20)[k] == name_key()[k] by {
        assert(l2[13 + k] == s[b + (13 + k)]);
    }
    assert(s.subrange(b + 13, b + 20) =~= name_key());
    lemma_token(s, b + 20, field, false);
    assert(value_ok(s, b + 20, field));
    assert(tokens_ok(s, b + 20, false) == tokens_ok(s, c0 + ff + 1, false));
    assert(tokens_ok(s, c0 + ff + 1, false) == tokens_ok(s, c0 + ff + 2, false));
}

/// The scan over `"type":[`.
#[verifier::rlimit(100)]
#[verifier::spinoff_prover]
proof fn lemma_scan_union_type(name: Seq<u8>, field: Seq<u8>, prim: Seq<u8>)
    ensures
        ({
            let c = 25 + name.len() as int + 21 + field.len() as int;
            tokens_ok(optional_field_record(name, field, prim), c + 2, false) == tokens_ok(
                optional_field_record(name, field, prim),
                c + 10,
                false,
            )
        }),
{
    lemma_layout(name, field, prim);
    let s = optional_field_record(name, field, prim);
    let l3 = union_start();
    let c = 25 + name.len() as int + 21 + field.len() as int;
    let type_w = seq![116u8, 121, 112, 101];
    assert(l3[2] == s[c + 2] && l3[7] == s[c + 7] && l3[8] == s[c + 8] && l3[9] == s[c + 9] && l3[10]
        == s[c + 10]);
    assert(forall|k: int| 0 <= k < 4 ==> type_w[k] != 34u8);
    assert(type_w.len() != symbols_word().len() && symbols_word().len() == aliases_word().len());
    assert forall|k: int| 0 <= k < 4 implies #[trigger] s.subrange(c + 3, c + 7)[k] == type_w[k] by {
        assert(l3[3 + k] == s[c + (3 + k)]);
    }
    assert(s.subrange(c + 3, c + 7) =~= type_w);
    lemma_token(s, c + 2, type_w, false);
    assert(tokens_ok(s, c + 2, false) == tokens_ok(s, c + 8, false));
    assert(tokens_ok(s, c + 9, false) == tokens_ok(s, c + 10, false));
    assert(tokens_ok(s, c + 8, false) == tokens_ok(s, c + 9, false));
}

/// The value standing right after `[` or `,` is taken as a union's branch.
proof fn lemma_branch_value(s: Seq<u8>, i: int, t: Seq<u8>)
    requires
        1 <= i < s.len(),
        s[i - 1] == 91u8 || s[i - 1] == 44u8,
    ensures
        value_ok(s, i, t) == is_primitive(t),
{
    if preceded_by(s, i, name_key()) {
        lemma_preceded_last(s, i, name_key());
    }
    if preceded_by(s, i, type_key()) {
        lemma_preceded_last(s, i, type_key());
    }
    if preceded_by(s, i, items_key()) {
        lemma_preceded_last(s, i, items_key());
    }
    if preceded_by(s, i, values_key()) {
        lemma_preceded_last(s, i, values_key());
    }
}

/// The scan over `"null",`.
#[verifier::rlimit(100)]
#[verifier::spinoff_prover]
proof fn lemma_scan_null(name: Seq<u8>, field: Seq<u8>, prim: Seq<u8>)
    ensures
        ({
            let c = 25 + name.len() as int + 21 + field.len() as int;
            tokens_ok(optional_field_record(name, field, prim), c + 10, false) == tokens_ok(
                optional_field_record(name, field, prim),
                c + 17,
                false,
            )
        }),
{
    lemma_layout(name, field, prim);
    let s = optional_field_record(name, field, prim);
    let l3 = union_start();
    let c = 25 + name.len() as int + 21 + field.len() as int;
    let null_w = seq![110u8, 117, 108, 108];
    assert(l3[9] == s[c + 9] && l3[10] == s[c + 10] && l3[15] == s[c + 15] && l3[16] == s[c + 16] && l3[17]
        == s[c + 17]);
    assert(forall|k: int| 0 <= k < 4 ==> null_w[k] != 34u8);
    assert forall|k: int| 0 <= k < 4 implies #[trigger] s.subrange(c + 11, c + 15)[k] == null_w[k] by {
        assert(l3[11 + k] == s[c + (11 + k)]);
    }
    assert(s.subrange(c + 11, c + 15) =~= null_w);
    lemma_token(s, c + 10, null_w, false);
    lemma_branch_value(s, c + 10, null_w);
    assert(is_primitive(null_w));
    assert(tokens_ok(s, c + 10, false) == tokens_ok(s, c + 16, false));
    assert(tokens_ok(s, c + 16, false) == tokens_ok(s, c + 17, false));
}

/// The scan over `"<primitive>"]}]}`.
#[verifier::rlimit(100)]
#[verifier::spinoff_prover]
proof fn lemma_scan_primitive(name: Seq<u8>, field: Seq<u8>, prim: Seq<u8>)
    requires
        is_primitive(prim),
    ensures
        tokens_ok(
            optional_field_record(name, field, prim),
            25 + name.len() as int + 21 + field.len() as int + 17,
            false,
        ),
{
    lemma_layout(name, field, prim);
    lemma_primitive_bytes(prim);
    let s = optional_field_record(name, field, prim);
    let l3 = union_start();
    let l4 = union_end();
    let c = 25 + name.len() as int + 21 + field.len() as int;
    let d0 = c + 18;
    let pp = prim.len() as int;
    let d = d0 + pp;
    assert(l3[16] == s[c + 16] && l3[17] == s[c + 17]);
    assert(l4[0] == s[d + 0] && l4[1] == s[d + 1] && l4[2] == s[d + 2] && l4[3] == s[d + 3] && l4[4]
        == s[d + 4]);
    assert(s.subrange(d0, d0 + pp) =~= prim);
    lemma_token(s, c + 17, prim, false);
    lemma_branch_value(s, c + 17, prim);
    assert(tokens_ok(s, d + 5, false));
    assert(tokens_ok(s, d + 4, false));
    assert(tokens_ok(s, d + 3, false));
    assert(tokens_ok(s, d + 2, false));
    assert(tokens_ok(s, d + 1, false));
}

/// The written schema of a record with one optional field of a primitive type,
/// `["null", <primitive>]`, is accepted, whatever the record's and the field's
/// names (but names of primitives or kinds, which the check refuses as names).
pub proof fn law_optional_primitive_field_accepted(name: Seq<u8>, field: Seq<u8>, w: Seq<char>)
    requires
        plain_name(name),
        plain_name(field),
        avro_primitive_name(w),
    ensures
        refers_by_name_to_nothing(Some(optional_field_record(name, field, ascii_bytes(w)))),
{
    law_primitive_and_kind_names(w);
    lemma_no_backslash(name, field, ascii_bytes(w));
    lemma_scan_record_name(name, field, ascii_bytes(w));
    lemma_scan_fields_key(name, field, ascii_bytes(w));
    lemma_scan_field_name(name, field, ascii_bytes(w));
    lemma_scan_union_type(name, field, ascii_bytes(w));
    lemma_scan_null(name, field, ascii_bytes(w));
    lemma_scan_primitive(name, field, ascii_bytes(w));
}

/// Whether the written schema refers to no named type by its name, as far as the
/// check can tell: `None`, where no JSON was written, is not accepted.
pub open spec fn refers_by_name_to_nothing(json: Option<Seq<u8>>) -> bool {
    match json {
        Some(s) => !has_backslash(s) && tokens_ok(s, 0, false),
        None => false,
    }
}

/// Whether the bytes from `start` are `w`.
fn matches_at(s: &[u8], start: usize, w: &[u8]) -> (r: bool)
    ensures
        r == (start + w@.len() <= s@.len() && s@.subrange(start as int, start + w@.len()) == w@),
{
    if start > s.len() || w.len() > s.len() - start {
        return false;
    }
    let mut k: usize = 0;
    while k < w.len()
        invariant
            start + w.len() <= s.len(),
            start + w@.len() <= s@.len(),
            k <= w@.len(),
            forall|m: int| 0 <= m < k ==> s@[start + m] == w@[m],
        decreases w.len() - k,
    {
        if s[start + k] != w[k] {
            assert(s@.subrange(start as int, start + w@.len())[k as int] != w@[k as int]);
            return false;
        }
        k = k + 1;
    }
    assert(s@.subrange(start as int, start + w@.len()) =~= w@);
    true
}

/// Whether the bytes just before `i` are `w`.
fn ends_at(s: &[u8], i: usize, w: &[u8]) -> (r: bool)
    requires
        i <= s@.len(),
    ensures
        r == preceded_by(s@, i as int, w@),
{
    if w.len() > i {
        false
    } else {
        matches_at(s, i - w.len(), w)
    }
}

/// Whether the bytes from `a` to `b` are `w`.
fn token_is(s: &[u8], a: usize, b: usize, w: &[u8]) -> (r: bool)
    requires
        a <= b <= s@.len(),
    ensures
        r == (s@.subrange(a as int, b as int) == w@),
{
    if b - a != w.len() {
        proof {
            assert(s@.subrange(a as int, b as int).len() != w@.len());
        }
        false
    } else {
        matches_at(s, a, w)
    }
}

fn token_is_primitive(s: &[u8], a: usize, b: usize) -> (r: bool)
    requires
        a <= b <= s@.len(),
    ensures
        r == is_primitive(s@.subrange(a as int, b as int)),
{
    let null: [u8; 4] = [110, 117, 108, 108];
    let boolean: [u8; 7] = [98, 111, 111, 108, 101, 97, 110];
    let int_word: [u8; 3] = [105, 110, 116];
    let long: [u8; 4] = [108, 111, 110, 103];
    let float: [u8; 5] = [102, 108, 111, 97, 116];
    let double: [u8; 6] = [100, 111, 117, 98, 108, 101];
    let bytes: [u8; 5] = [98, 121, 116, 101, 115];
    let string: [u8; 6] = [115, 116, 114, 105, 110, 103];
    assert(null@ =~= seq![110u8, 117, 108, 108]);
    assert(boolean@ =~= seq![98u8, 111, 111, 108, 101, 97, 110]);
    assert(int_word@ =~= seq![105u8, 110, 116]);
    assert(long@ =~= seq![108u8, 111, 110, 103]);
    assert(float@ =~= seq![102u8, 108, 111, 97, 116]);
    assert(double@ =~= seq![100u8, 111, 117, 98, 108, 101]);
    assert(bytes@ =~= seq![98u8, 121, 116, 101, 115]);
    assert(string@ =~= seq![115u8, 116, 114, 105, 110, 103]);
    token_is(s, a, b, null.as_slice()) || token_is(s, a, b, boolean.as_slice()) || token_is(
        s,
        a,
        b,
        int_word.as_slice(),
    ) || token_is(s, a, b, long.as_slice()) || token_is(s, a, b, float.as_slice()) || token_is(
        s,
        a,
        b,
        double.as_slice(),
    ) || token_is(s, a, b, bytes.as_slice()) || token_is(s, a, b, string.as_slice())
}

fn token_is_kind(s: &[u8], a: usize, b: usize) -> (r: bool)
    requires
        a <= b <= s@.len(),
    ensures
        r == is_kind(s@.subrange(a as int, b as int)),
{
    let record: [u8; 6] = [114, 101, 99, 111, 114, 100];
    let enumeration: [u8; 4] = [101, 110, 117, 109];
    let fixed: [u8; 5] = [102, 105, 120, 101, 100];
    let array: [u8; 5] = [97, 114, 114, 97, 121];
    let map: [u8; 3] = [109, 97, 112];
    assert(record@ =~= seq![114u8, 101, 99, 111, 114, 100]);
    assert(enumeration@ =~= seq![101u8, 110, 117, 109]);
    assert(fixed@ =~= seq![102u8, 105, 120, 101, 100]);
    assert(array@ =~= seq![97u8, 114, 114, 97, 121]);
    assert(map@ =~= seq![109u8, 97, 112]);
    token_is(s, a, b, record.as_slice()) || token_is(s, a, b, enumeration.as_slice()) || token_is(
        s,
        a,
        b,
        fixed.as_slice(),
    ) || token_is(s, a, b, array.as_slice()) || token_is(s, a, b, map.as_slice())
}

/// Whether the string value whose opening quote is at `i` and whose text runs
/// to `j` may stand where it stands.
fn value_accepted(s: &[u8], i: usize, j: usize) -> (r: bool)
    requires
        i < j <= s@.len(),
    ensures
        r == value_ok(s@, i as int, s@.subrange(i + 1, j as int)),
{
    let name_k: [u8; 7] = [34, 110, 97, 109, 101, 34, 58];
    let type_k: [u8; 7] = [34, 116, 121, 112, 101, 34, 58];
    let items_k: [u8; 8] = [34, 105, 116, 101, 109, 115, 34, 58];
    let values_k: [u8; 9] = [34, 118, 97, 108, 117, 101, 115, 34, 58];
    assert(name_k@ =~= name_key());
    assert(type_k@ =~= type_key());
    assert(items_k@ =~= items_key());
    assert(values_k@ =~= values_key());
    if ends_at(s, i, name_k.as_slice()) {
        !token_is_primitive(s, i + 1, j) && !token_is_kind(s, i + 1, j)
    } else if ends_at(s, i, type_k.as_slice()) {
        token_is_primitive(s, i + 1, j) || token_is_kind(s, i + 1, j)
    } else if ends_at(s, i, items_k.as_slice()) || ends_at(s, i, values_k.as_slice()) {
        token_is_primitive(s, i + 1, j)
    } else if i == 0 || s[i - 1] == 91u8 || s[i - 1] == 44u8 {
        token_is_primitive(s, i + 1, j)
    } else {
        true
    }
}

/// The index of the first quote at or after `from`, or the length where there is none.
fn find_quote(s: &[u8], from: usize) -> (j: usize)
    requires
        from <= s@.len(),
    ensures
        j == next_quote(s@, from as int),
{
    let mut k = from;
    while k < s.len() && s[k] != 34u8
        invariant
            from <= k <= s@.len(),
            next_quote(s@, from as int) == next_quote(s@, k as int),
        decreases s.len() - k,
    {
        k = k + 1;
    }
    k
}

/// Whether the written JSON of a schema refers to no named type by its name (see
/// the module's documentation for what is checked).
pub fn refers_by_name_to_none(json: &[u8]) -> (r: bool)
    ensures
        r == refers_by_name_to_nothing(Some(json@)),
{
    let mut b: usize = 0;
    while b < json.len()
        invariant
            b <= json@.len(),
            forall|m: int| 0 <= m < b ==> json@[m] != 92u8,
        decreases json.len() - b,
    {
        if json[b] == 92u8 {
            return false;
        }
        b = b + 1;
    }
    let mut i: usize = 0;
    let mut skipping = false;
    while i < json.len()
        invariant
            i <= json@.len(),
            !has_backslash(json@),
            tokens_ok(json@, 0, false) == tokens_ok(json@, i as int, skipping),
        decreases json.len() - i,
    {
        if json[i] == 34u8 {
            let j = find_quote(json, i + 1);
            proof {
                lemma_next_quote(json@, i + 1);
            }
            if j >= json.len() {
                return false;
            }
            if j + 1 < json.len() && json[j + 1] == 58u8 {
                let symbols: [u8; 7] = [115, 121, 109, 98, 111, 108, 115];
                let aliases: [u8; 7] = [97, 108, 105, 97, 115, 101, 115];
                assert(symbols@ =~= symbols_word());
                assert(aliases@ =~= aliases_word());
                skipping = (token_is(json, i + 1, j, symbols.as_slice()) || token_is(
                    json,
                    i + 1,
                    j,
                    aliases.as_slice(),
                )) && j + 2 < json.len() && json[j + 2] == 91u8;
            } else {
                if !skipping && !value_accepted(json, i, j) {
                    return false;
                }
            }
            i = j + 1;
        } else {
            if json[i] == 93u8 {
                skipping = false;
            }
            i = i + 1;
        }
    }
    true
}

} // verus!
