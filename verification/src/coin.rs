//! One catalog record: a coin's descriptive metadata and a pointer to its
//! model asset.
//!
//! `id`, `name`, `description` and `model_url` are required; every other
//! field is optional. The two measurements are kept as the decimal text of
//! the JSON number they were read from, so rendering a record writes back
//! the very value that was loaded.
//!
//! A record is read out of one parsed JSON object ([`spec_coin_of`] says
//! exactly when that succeeds and what it yields) and rendered back to
//! JSON text ([`spec_coin_json`] gives the exact text).

use vstd::prelude::*;

use crate::json::FieldV;
use crate::json::JsonField;
use crate::text::spec_quoted;
use crate::text::append_quoted;

verus! {

/// One coin record. String fields hold the text of the JSON value they
/// were loaded from; absent optional fields are `None`.
#[derive(Debug)]
pub struct Coin {
    pub id: String,
    pub name: String,
    pub description: String,
    pub year: Option<String>,
    pub mint: Option<String>,
    pub denomination: Option<String>,
    pub metal: Option<String>,
    pub weight_grams: Option<String>,
    pub diameter_mm: Option<String>,
    pub model_url: String,
    pub thumbnail_url: Option<String>,
    pub grade: Option<String>,
    pub catalog_reference: Option<String>,
    pub ruler: Option<String>,
    pub obverse_description: Option<String>,
    pub reverse_description: Option<String>,
    pub obverse_legend: Option<String>,
    pub reverse_legend: Option<String>,
}

/// The mathematical value of a coin record.
#[verifier::ext_equal]
pub struct CoinV {
    pub id: Seq<char>,
    pub name: Seq<char>,
    pub description: Seq<char>,
    pub year: Option<Seq<char>>,
    pub mint: Option<Seq<char>>,
    pub denomination: Option<Seq<char>>,
    pub metal: Option<Seq<char>>,
    pub weight_grams: Option<Seq<char>>,
    pub diameter_mm: Option<Seq<char>>,
    pub model_url: Seq<char>,
    pub thumbnail_url: Option<Seq<char>>,
    pub grade: Option<Seq<char>>,
    pub catalog_reference: Option<Seq<char>>,
    pub ruler: Option<Seq<char>>,
    pub obverse_description: Option<Seq<char>>,
    pub reverse_description: Option<Seq<char>>,
    pub obverse_legend: Option<Seq<char>>,
    pub reverse_legend: Option<Seq<char>>,
}

/// The view of an optional text field.
pub open spec fn view_opt(o: Option<String>) -> Option<Seq<char>> {
    match o {
        Option::Some(s) => Option::Some(s@),
        Option::None => Option::None,
    }
}

impl View for Coin {
    type V = CoinV;

    open spec fn view(&self) -> CoinV {
        CoinV {
            id: self.id@,
            name: self.name@,
            description: self.description@,
            year: view_opt(self.year),
            mint: view_opt(self.mint),
            denomination: view_opt(self.denomination),
            metal: view_opt(self.metal),
            weight_grams: view_opt(self.weight_grams),
            diameter_mm: view_opt(self.diameter_mm),
            model_url: self.model_url@,
            thumbnail_url: view_opt(self.thumbnail_url),
            grade: view_opt(self.grade),
            catalog_reference: view_opt(self.catalog_reference),
            ruler: view_opt(self.ruler),
            obverse_description: view_opt(self.obverse_description),
            reverse_description: view_opt(self.reverse_description),
            obverse_legend: view_opt(self.obverse_legend),
            reverse_legend: view_opt(self.reverse_legend),
        }
    }
}

fn clone_opt(o: &Option<String>) -> (r: Option<String>)
    ensures
        r == *o,
{
    match o {
        Option::Some(s) => Option::Some(s.clone()),
        Option::None => Option::None,
    }
}

impl Clone for Coin {
    fn clone(&self) -> (r: Coin)
        ensures
            r == *self,
    {
        Coin {
            id: self.id.clone(),
            name: self.name.clone(),
            description: self.description.clone(),
            year: clone_opt(&self.year),
            mint: clone_opt(&self.mint),
            denomination: clone_opt(&self.denomination),
            metal: clone_opt(&self.metal),
            weight_grams: clone_opt(&self.weight_grams),
            diameter_mm: clone_opt(&self.diameter_mm),
            model_url: self.model_url.clone(),
            thumbnail_url: clone_opt(&self.thumbnail_url),
            grade: clone_opt(&self.grade),
            catalog_reference: clone_opt(&self.catalog_reference),
            ruler: clone_opt(&self.ruler),
            obverse_description: clone_opt(&self.obverse_description),
            reverse_description: clone_opt(&self.reverse_description),
            obverse_legend: clone_opt(&self.obverse_legend),
            reverse_legend: clone_opt(&self.reverse_legend),
        }
    }
}

// ------------------------------------------------------------------
// Reading a record out of a parsed JSON object
// ------------------------------------------------------------------

/// The value under the first occurrence of `key` at or after `i`, if any.
pub open spec fn field_lookup_from(fs: Seq<(Seq<char>, FieldV)>, key: Seq<char>, i: int) -> Option<
    FieldV,
>
    decreases fs.len() - i,
{
    if i < 0 || i >= fs.len() {
        Option::None
    } else if fs[i].0 == key {
        Option::Some(fs[i].1)
    } else {
        field_lookup_from(fs, key, i + 1)
    }
}

/// The value under the first occurrence of `key`, if any.
pub open spec fn field_lookup(fs: Seq<(Seq<char>, FieldV)>, key: Seq<char>) -> Option<FieldV> {
    field_lookup_from(fs, key, 0)
}

/// A required text field: present and a string, or nothing.
pub open spec fn req_str(fs: Seq<(Seq<char>, FieldV)>, key: Seq<char>) -> Option<Seq<char>> {
    match field_lookup(fs, key) {
        Option::Some(FieldV::Str(s)) => Option::Some(s),
        _ => Option::None,
    }
}

/// An optional text field: the outer `None` means the field is present
/// but of the wrong kind; absent and `null` both read as absent.
pub open spec fn opt_str(fs: Seq<(Seq<char>, FieldV)>, key: Seq<char>) -> Option<
    Option<Seq<char>>,
> {
    match field_lookup(fs, key) {
        Option::None => Option::Some(Option::None),
        Option::Some(FieldV::Null) => Option::Some(Option::None),
        Option::Some(FieldV::Str(s)) => Option::Some(Option::Some(s)),
        _ => Option::None,
    }
}

/// An optional number field, read as the number's decimal text.
pub open spec fn opt_num(fs: Seq<(Seq<char>, FieldV)>, key: Seq<char>) -> Option<
    Option<Seq<char>>,
> {
    match field_lookup(fs, key) {
        Option::None => Option::Some(Option::None),
        Option::Some(FieldV::Null) => Option::Some(Option::None),
        Option::Some(FieldV::Num(s)) => Option::Some(Option::Some(s)),
        _ => Option::None,
    }
}

/// Whether one parsed JSON object carries a well-formed coin record.
pub open spec fn coin_fields_valid(fs: Seq<(Seq<char>, FieldV)>) -> bool {
    &&& req_str(fs, "id"@) is Some
    &&& req_str(fs, "name"@) is Some
    &&& req_str(fs, "description"@) is Some
    &&& req_str(fs, "model_url"@) is Some
    &&& opt_str(fs, "year"@) is Some
    &&& opt_str(fs, "mint"@) is Some
    &&& opt_str(fs, "denomination"@) is Some
    &&& opt_str(fs, "metal"@) is Some
    &&& opt_num(fs, "weight_grams"@) is Some
    &&& opt_num(fs, "diameter_mm"@) is Some
    &&& opt_str(fs, "thumbnail_url"@) is Some
    &&& opt_str(fs, "grade"@) is Some
    &&& opt_str(fs, "catalog_reference"@) is Some
    &&& opt_str(fs, "ruler"@) is Some
    &&& opt_str(fs, "obverse_description"@) is Some
    &&& opt_str(fs, "reverse_description"@) is Some
    &&& opt_str(fs, "obverse_legend"@) is Some
    &&& opt_str(fs, "reverse_legend"@) is Some
}

/// The record one parsed JSON object yields: each field read under its
/// key, required fields demanded, unknown keys ignored.
pub open spec fn spec_coin_of(fs: Seq<(Seq<char>, FieldV)>) -> Option<CoinV> {
    if coin_fields_valid(fs) {
        Option::Some(
            CoinV {
                id: req_str(fs, "id"@)->0,
                name: req_str(fs, "name"@)->0,
                description: req_str(fs, "description"@)->0,
                year: opt_str(fs, "year"@)->0,
                mint: opt_str(fs, "mint"@)->0,
                denomination: opt_str(fs, "denomination"@)->0,
                metal: opt_str(fs, "metal"@)->0,
                weight_grams: opt_num(fs, "weight_grams"@)->0,
                diameter_mm: opt_num(fs, "diameter_mm"@)->0,
                model_url: req_str(fs, "model_url"@)->0,
                thumbnail_url: opt_str(fs, "thumbnail_url"@)->0,
                grade: opt_str(fs, "grade"@)->0,
                catalog_reference: opt_str(fs, "catalog_reference"@)->0,
                ruler: opt_str(fs, "ruler"@)->0,
                obverse_description: opt_str(fs, "obverse_description"@)->0,
                reverse_description: opt_str(fs, "reverse_description"@)->0,
                obverse_legend: opt_str(fs, "obverse_legend"@)->0,
                reverse_legend: opt_str(fs, "reverse_legend"@)->0,
            },
        )
    } else {
        Option::None
    }
}

/// The view of a parsed object's field list.
pub open spec fn fields_view(fs: Seq<(String, JsonField)>) -> Seq<(Seq<char>, FieldV)> {
    fs.map_values(|p: (String, JsonField)| (p.0@, p.1@))
}

fn find_field(fs: &Vec<(String, JsonField)>, key: &String) -> (r: Option<usize>)
    ensures
        match r {
            Option::Some(i) => i < fs@.len() && field_lookup(fields_view(fs@), key@)
                == Option::Some(fs@[i as int].1@),
            Option::None => field_lookup(fields_view(fs@), key@) is None,
        },
{
    let ghost whole: Seq<(Seq<char>, FieldV)> = fields_view(fs@);
    let n = fs.len();
    let mut i: usize = 0;
    while i < n
        invariant
            i <= n,
            n == fs@.len(),
            whole == fields_view(fs@),
            field_lookup(whole, key@) == field_lookup_from(whole, key@, i as int),
        decreases n - i,
    {
        proof {
            assert(whole[i as int] == (fs@[i as int].0@, fs@[i as int].1@));
        }
        if fs[i].0 == *key {
            return Option::Some(i);
        }
        i = i + 1;
    }
    Option::None
}

fn get_req_str(fs: &Vec<(String, JsonField)>, key: &String) -> (r: Option<String>)
    ensures
        view_opt(r) == req_str(fields_view(fs@), key@),
{
    match find_field(fs, key) {
        Option::None => Option::None,
        Option::Some(i) => match &fs[i].1 {
            JsonField::Str(s) => Option::Some(s.clone()),
            _ => Option::None,
        },
    }
}

fn get_opt_str(fs: &Vec<(String, JsonField)>, key: &String) -> (r: Option<Option<String>>)
    ensures
        match r {
            Option::Some(o) => opt_str(fields_view(fs@), key@) == Option::Some(view_opt(o)),
            Option::None => opt_str(fields_view(fs@), key@) is None,
        },
{
    match find_field(fs, key) {
        Option::None => Option::Some(Option::None),
        Option::Some(i) => match &fs[i].1 {
            JsonField::Null => Option::Some(Option::None),
            JsonField::Str(s) => Option::Some(Option::Some(s.clone())),
            _ => Option::None,
        },
    }
}

fn get_opt_num(fs: &Vec<(String, JsonField)>, key: &String) -> (r: Option<Option<String>>)
    ensures
        match r {
            Option::Some(o) => opt_num(fields_view(fs@), key@) == Option::Some(view_opt(o)),
            Option::None => opt_num(fields_view(fs@), key@) is None,
        },
{
    match find_field(fs, key) {
        Option::None => Option::Some(Option::None),
        Option::Some(i) => match &fs[i].1 {
            JsonField::Null => Option::Some(Option::None),
            JsonField::Num(s) => Option::Some(Option::Some(s.clone())),
            _ => Option::None,
        },
    }
}

/// Reads one coin record out of one parsed JSON object's field list, or
/// nothing where a required field is missing or a field has the wrong
/// kind.
pub fn coin_of_fields(fs: &Vec<(String, JsonField)>) -> (r: Option<Coin>)
    ensures
        match r {
            Option::Some(c) => spec_coin_of(fields_view(fs@)) == Option::Some(c@),
            Option::None => spec_coin_of(fields_view(fs@)) is None,
        },
{
    let id = match get_req_str(fs, &String::from_str("id")) {
        Option::Some(v) => v,
        Option::None => return Option::None,
    };
    let name = match get_req_str(fs, &String::from_str("name")) {
        Option::Some(v) => v,
        Option::None => return Option::None,
    };
    let description = match get_req_str(fs, &String::from_str("description")) {
        Option::Some(v) => v,
        Option::None => return Option::None,
    };
    let model_url = match get_req_str(fs, &String::from_str("model_url")) {
        Option::Some(v) => v,
        Option::None => return Option::None,
    };
    let year = match get_opt_str(fs, &String::from_str("year")) {
        Option::Some(v) => v,
        Option::None => return Option::None,
    };
    let mint = match get_opt_str(fs, &String::from_str("mint")) {
        Option::Some(v) => v,
        Option::None => return Option::None,
    };
    let denomination = match get_opt_str(fs, &String::from_str("denomination")) {
        Option::Some(v) => v,
        Option::None => return Option::None,
    };
    let metal = match get_opt_str(fs, &String::from_str("metal")) {
        Option::Some(v) => v,
        Option::None => return Option::None,
    };
    let weight_grams = match get_opt_num(fs, &String::from_str("weight_grams")) {
        Option::Some(v) => v,
        Option::None => return Option::None,
    };
    let diameter_mm = match get_opt_num(fs, &String::from_str("diameter_mm")) {
        Option::Some(v) => v,
        Option::None => return Option::None,
    };
    let thumbnail_url = match get_opt_str(fs, &String::from_str("thumbnail_url")) {
        Option::Some(v) => v,
        Option::None => return Option::None,
    };
    let grade = match get_opt_str(fs, &String::from_str("grade")) {
        Option::Some(v) => v,
        Option::None => return Option::None,
    };
    let catalog_reference = match get_opt_str(fs, &String::from_str("catalog_reference")) {
        Option::Some(v) => v,
        Option::None => return Option::None,
    };
    let ruler = match get_opt_str(fs, &String::from_str("ruler")) {
        Option::Some(v) => v,
        Option::None => return Option::None,
    };
    let obverse_description = match get_opt_str(fs, &String::from_str("obverse_description")) {
        Option::Some(v) => v,
        Option::None => return Option::None,
    };
    let reverse_description = match get_opt_str(fs, &String::from_str("reverse_description")) {
        Option::Some(v) => v,
        Option::None => return Option::None,
    };
    let obverse_legend = match get_opt_str(fs, &String::from_str("obverse_legend")) {
        Option::Some(v) => v,
        Option::None => return Option::None,
    };
    let reverse_legend = match get_opt_str(fs, &String::from_str("reverse_legend")) {
        Option::Some(v) => v,
        Option::None => return Option::None,
    };
    let coin = Coin {
        id,
        name,
        description,
        year,
        mint,
        denomination,
        metal,
        weight_grams,
        diameter_mm,
        model_url,
        thumbnail_url,
        grade,
        catalog_reference,
        ruler,
        obverse_description,
        reverse_description,
        obverse_legend,
        reverse_legend,
    };
    proof {
        assert(spec_coin_of(fields_view(fs@)) == Option::Some(coin@)) by {
            assert(coin_fields_valid(fields_view(fs@)));
            assert(spec_coin_of(fields_view(fs@))->0 =~= coin@);
        }
    }
    Option::Some(coin)
}

// ------------------------------------------------------------------
// Rendering a record as JSON text
// ------------------------------------------------------------------

/// An optional text field as JSON: a string literal, or `null`.
pub open spec fn spec_opt_quoted(o: Option<Seq<char>>) -> Seq<char> {
    match o {
        Option::None => "null"@,
        Option::Some(s) => spec_quoted(s),
    }
}

/// An optional number field as JSON: its decimal text, or `null`.
pub open spec fn spec_opt_raw(o: Option<Seq<char>>) -> Seq<char> {
    match o {
        Option::None => "null"@,
        Option::Some(s) => s,
    }
}

/// The exact JSON text of one coin record: every field in declaration
/// order, absent optional fields written as `null`.
pub open spec fn spec_coin_json(c: CoinV) -> Seq<char> {
    "{\"id\":"@ + spec_quoted(c.id) + ",\"name\":"@ + spec_quoted(c.name) + ",\"description\":"@
        + spec_quoted(c.description) + ",\"year\":"@ + spec_opt_quoted(c.year) + ",\"mint\":"@
        + spec_opt_quoted(c.mint) + ",\"denomination\":"@ + spec_opt_quoted(c.denomination)
        + ",\"metal\":"@ + spec_opt_quoted(c.metal) + ",\"weight_grams\":"@ + spec_opt_raw(
        c.weight_grams,
    ) + ",\"diameter_mm\":"@ + spec_opt_raw(c.diameter_mm) + ",\"model_url\":"@ + spec_quoted(
        c.model_url,
    ) + ",\"thumbnail_url\":"@ + spec_opt_quoted(c.thumbnail_url) + ",\"grade\":"@
        + spec_opt_quoted(c.grade) + ",\"catalog_reference\":"@ + spec_opt_quoted(
        c.catalog_reference,
    ) + ",\"ruler\":"@ + spec_opt_quoted(c.ruler) + ",\"obverse_description\":"@ + spec_opt_quoted(
        c.obverse_description,
    ) + ",\"reverse_description\":"@ + spec_opt_quoted(c.reverse_description)
        + ",\"obverse_legend\":"@ + spec_opt_quoted(c.obverse_legend) + ",\"reverse_legend\":"@
        + spec_opt_quoted(c.reverse_legend) + "}"@
}

fn append_opt_quoted(out: &mut String, o: &Option<String>)
    ensures
        final(out)@ == old(out)@ + spec_opt_quoted(view_opt(*o)),
{
    match o {
        Option::Some(s) => append_quoted(out, s.as_str()),
        Option::None => out.append("null"),
    }
}

fn append_opt_raw(out: &mut String, o: &Option<String>)
    ensures
        final(out)@ == old(out)@ + spec_opt_raw(view_opt(*o)),
{
    match o {
        Option::Some(s) => out.append(s.as_str()),
        Option::None => out.append("null"),
    }
}

impl Coin {
    /// The exact JSON text of this record.
    pub fn to_json(&self) -> (r: String)
        ensures
            r@ == spec_coin_json(self@),
    {
        let c = self;
        let mut out = String::new();
        out.append("{\"id\":");
        proof {
            assert(out@ =~= "{\"id\":"@);
        }
        append_quoted(&mut out, c.id.as_str());
        out.append(",\"name\":");
        append_quoted(&mut out, c.name.as_str());
        out.append(",\"description\":");
        append_quoted(&mut out, c.description.as_str());
        out.append(",\"year\":");
        append_opt_quoted(&mut out, &c.year);
        out.append(",\"mint\":");
        append_opt_quoted(&mut out, &c.mint);
        out.append(",\"denomination\":");
        append_opt_quoted(&mut out, &c.denomination);
        out.append(",\"metal\":");
        append_opt_quoted(&mut out, &c.metal);
        out.append(",\"weight_grams\":");
        append_opt_raw(&mut out, &c.weight_grams);
        out.append(",\"diameter_mm\":");
        append_opt_raw(&mut out, &c.diameter_mm);
        out.append(",\"model_url\":");
        append_quoted(&mut out, c.model_url.as_str());
        out.append(",\"thumbnail_url\":");
        append_opt_quoted(&mut out, &c.thumbnail_url);
        out.append(",\"grade\":");
        append_opt_quoted(&mut out, &c.grade);
        out.append(",\"catalog_reference\":");
        append_opt_quoted(&mut out, &c.catalog_reference);
        out.append(",\"ruler\":");
        append_opt_quoted(&mut out, &c.ruler);
        out.append(",\"obverse_description\":");
        append_opt_quoted(&mut out, &c.obverse_description);
        out.append(",\"reverse_description\":");
        append_opt_quoted(&mut out, &c.reverse_description);
        out.append(",\"obverse_legend\":");
        append_opt_quoted(&mut out, &c.obverse_legend);
        out.append(",\"reverse_legend\":");
        append_opt_quoted(&mut out, &c.reverse_legend);
        out.append("}");
        proof {
            assert(out@ == spec_coin_json(c@));
        }
        out
    }
}

// ------------------------------------------------------------------
// What is served reads back unchanged
// ------------------------------------------------------------------

/// An optional text field as a JSON object field: its string, or `null`.
pub open spec fn opt_str_field(o: Option<Seq<char>>) -> FieldV {
    match o {
        Option::None => FieldV::Null,
        Option::Some(s) => FieldV::Str(s),
    }
}

/// An optional number field as a JSON object field: its text, or `null`.
pub open spec fn opt_num_field(o: Option<Seq<char>>) -> FieldV {
    match o {
        Option::None => FieldV::Null,
        Option::Some(s) => FieldV::Num(s),
    }
}

/// The JSON object fields a record renders to: every field under its key
/// in declaration order, absent optional fields as `null`.
pub open spec fn coin_fields(c: CoinV) -> Seq<(Seq<char>, FieldV)> {
    seq![
        ("id"@, FieldV::Str(c.id)),
        ("name"@, FieldV::Str(c.name)),
        ("description"@, FieldV::Str(c.description)),
        ("year"@, opt_str_field(c.year)),
        ("mint"@, opt_str_field(c.mint)),
        ("denomination"@, opt_str_field(c.denomination)),
        ("metal"@, opt_str_field(c.metal)),
        ("weight_grams"@, opt_num_field(c.weight_grams)),
        ("diameter_mm"@, opt_num_field(c.diameter_mm)),
        ("model_url"@, FieldV::Str(c.model_url)),
        ("thumbnail_url"@, opt_str_field(c.thumbnail_url)),
        ("grade"@, opt_str_field(c.grade)),
        ("catalog_reference"@, opt_str_field(c.catalog_reference)),
        ("ruler"@, opt_str_field(c.ruler)),
        ("obverse_description"@, opt_str_field(c.obverse_description)),
        ("reverse_description"@, opt_str_field(c.reverse_description)),
        ("obverse_legend"@, opt_str_field(c.obverse_legend)),
        ("reverse_legend"@, opt_str_field(c.reverse_legend)),
    ]
}

/// A record rendered to its JSON object fields and read back is the same
/// record: nothing is lost or invented on the way out, and absent
/// optional fields stay absent through their `null`s.
#[verifier::rlimit(100)]
pub proof fn lemma_coin_fields_round_trip(c: CoinV)
    ensures
        spec_coin_of(coin_fields(c)) == Option::Some(c),
{
    broadcast use vstd::string::group_string_axioms;

    reveal_strlit("id");
    reveal_strlit("name");
    reveal_strlit("description");
    reveal_strlit("year");
    reveal_strlit("mint");
    reveal_strlit("denomination");
    reveal_strlit("metal");
    reveal_strlit("weight_grams");
    reveal_strlit("diameter_mm");
    reveal_strlit("model_url");
    reveal_strlit("thumbnail_url");
    reveal_strlit("grade");
    reveal_strlit("catalog_reference");
    reveal_strlit("ruler");
    reveal_strlit("obverse_description");
    reveal_strlit("reverse_description");
    reveal_strlit("obverse_legend");
    reveal_strlit("reverse_legend");
    reveal_with_fuel(field_lookup_from, 20);
    let fs = coin_fields(c);
    assert(fs.len() == 18);
    assert(fs[0] == ("id"@, FieldV::Str(c.id)));
    assert(fs[1] == ("name"@, FieldV::Str(c.name)));
    assert(fs[2] == ("description"@, FieldV::Str(c.description)));
    assert(fs[3] == ("year"@, opt_str_field(c.year)));
    assert(fs[4] == ("mint"@, opt_str_field(c.mint)));
    assert(fs[5] == ("denomination"@, opt_str_field(c.denomination)));
    assert(fs[6] == ("metal"@, opt_str_field(c.metal)));
    assert(fs[7] == ("weight_grams"@, opt_num_field(c.weight_grams)));
    assert(fs[8] == ("diameter_mm"@, opt_num_field(c.diameter_mm)));
    assert(fs[9] == ("model_url"@, FieldV::Str(c.model_url)));
    assert(fs[10] == ("thumbnail_url"@, opt_str_field(c.thumbnail_url)));
    assert(fs[11] == ("grade"@, opt_str_field(c.grade)));
    assert(fs[12] == ("catalog_reference"@, opt_str_field(c.catalog_reference)));
    assert(fs[13] == ("ruler"@, opt_str_field(c.ruler)));
    assert(fs[14] == ("obverse_description"@, opt_str_field(c.obverse_description)));
    assert(fs[15] == ("reverse_description"@, opt_str_field(c.reverse_description)));
    assert(fs[16] == ("obverse_legend"@, opt_str_field(c.obverse_legend)));
    assert(fs[17] == ("reverse_legend"@, opt_str_field(c.reverse_legend)));
    assert("id"@ != "name"@) by {
        assert("id"@.len() == 2);
        assert("name"@.len() == 4);
    }
    assert("id"@ != "description"@) by {
        assert("id"@.len() == 2);
        assert("description"@.len() == 11);
    }
    assert("id"@ != "year"@) by {
        assert("id"@.len() == 2);
        assert("year"@.len() == 4);
    }
    assert("id"@ != "mint"@) by {
        assert("id"@.len() == 2);
        assert("mint"@.len() == 4);
    }
    assert("id"@ != "denomination"@) by {
        assert("id"@.len() == 2);
        assert("denomination"@.len() == 12);
    }
    assert("id"@ != "metal"@) by {
        assert("id"@.len() == 2);
        assert("metal"@.len() == 5);
    }
    assert("id"@ != "weight_grams"@) by {
        assert("id"@.len() == 2);
        assert("weight_grams"@.len() == 12);
    }
    assert("id"@ != "diameter_mm"@) by {
        assert("id"@.len() == 2);
        assert("diameter_mm"@.len() == 11);
    }
    assert("id"@ != "model_url"@) by {
        assert("id"@.len() == 2);
        assert("model_url"@.len() == 9);
    }
    assert("id"@ != "thumbnail_url"@) by {
        assert("id"@.len() == 2);
        assert("thumbnail_url"@.len() == 13);
    }
    assert("id"@ != "grade"@) by {
        assert("id"@.len() == 2);
        assert("grade"@.len() == 5);
    }
    assert("id"@ != "catalog_reference"@) by {
        assert("id"@.len() == 2);
        assert("catalog_reference"@.len() == 17);
    }
    assert("id"@ != "ruler"@) by {
        assert("id"@.len() == 2);
        assert("ruler"@.len() == 5);
    }
    assert("id"@ != "obverse_description"@) by {
        assert("id"@.len() == 2);
        assert("obverse_description"@.len() == 19);
    }
    assert("id"@ != "reverse_description"@) by {
        assert("id"@.len() == 2);
        assert("reverse_description"@.len() == 19);
    }
    assert("id"@ != "obverse_legend"@) by {
        assert("id"@.len() == 2);
        assert("obverse_legend"@.len() == 14);
    }
    assert("id"@ != "reverse_legend"@) by {
        assert("id"@.len() == 2);
        assert("reverse_legend"@.len() == 14);
    }
    assert("name"@ != "description"@) by {
        assert("name"@.len() == 4);
        assert("description"@.len() == 11);
    }
    assert("name"@ != "year"@) by {
        assert("name"@[0] == 'n');
        assert("year"@[0] == 'y');
    }
    assert("name"@ != "mint"@) by {
        assert("name"@[0] == 'n');
        assert("mint"@[0] == 'm');
    }
    assert("name"@ != "denomination"@) by {
        assert("name"@.len() == 4);
        assert("denomination"@.len() == 12);
    }
    assert("name"@ != "metal"@) by {
        assert("name"@.len() == 4);
        assert("metal"@.len() == 5);
    }
    assert("name"@ != "weight_grams"@) by {
        assert("name"@.len() == 4);
        assert("weight_grams"@.len() == 12);
    }
    assert("name"@ != "diameter_mm"@) by {
        assert("name"@.len() == 4);
        assert("diameter_mm"@.len() == 11);
    }
    assert("name"@ != "model_url"@) by {
        assert("name"@.len() == 4);
        assert("model_url"@.len() == 9);
    }
    assert("name"@ != "thumbnail_url"@) by {
        assert("name"@.len() == 4);
        assert("thumbnail_url"@.len() == 13);
    }
    assert("name"@ != "grade"@) by {
        assert("name"@.len() == 4);
        assert("grade"@.len() == 5);
    }
    assert("name"@ != "catalog_reference"@) by {
        assert("name"@.len() == 4);
        assert("catalog_reference"@.len() == 17);
    }
    assert("name"@ != "ruler"@) by {
        assert("name"@.len() == 4);
        assert("ruler"@.len() == 5);
    }
    assert("name"@ != "obverse_description"@) by {
        assert("name"@.len() == 4);
        assert("obverse_description"@.len() == 19);
    }
    assert("name"@ != "reverse_description"@) by {
        assert("name"@.len() == 4);
        assert("reverse_description"@.len() == 19);
    }
    assert("name"@ != "obverse_legend"@) by {
        assert("name"@.len() == 4);
        assert("obverse_legend"@.len() == 14);
    }
    assert("name"@ != "reverse_legend"@) by {
        assert("name"@.len() == 4);
        assert("reverse_legend"@.len() == 14);
    }
    assert("description"@ != "year"@) by {
        assert("description"@.len() == 11);
        assert("year"@.len() == 4);
    }
    assert("description"@ != "mint"@) by {
        assert("description"@.len() == 11);
        assert("mint"@.len() == 4);
    }
    assert("description"@ != "denomination"@) by {
        assert("description"@.len() == 11);
        assert("denomination"@.len() == 12);
    }
    assert("description"@ != "metal"@) by {
        assert("description"@.len() == 11);
        assert("metal"@.len() == 5);
    }
    assert("description"@ != "weight_grams"@) by {
        assert("description"@.len() == 11);
        assert("weight_grams"@.len() == 12);
    }
    assert("description"@ != "diameter_mm"@) by {
        assert("description"@[1] == 'e');
        assert("diameter_mm"@[1] == 'i');
    }
    assert("description"@ != "model_url"@) by {
        assert("description"@.len() == 11);
        assert("model_url"@.len() == 9);
    }
    assert("description"@ != "thumbnail_url"@) by {
        assert("description"@.len() == 11);
        assert("thumbnail_url"@.len() == 13);
    }
    assert("description"@ != "grade"@) by {
        assert("description"@.len() == 11);
        assert("grade"@.len() == 5);
    }
    assert("description"@ != "catalog_reference"@) by {
        assert("description"@.len() == 11);
        assert("catalog_reference"@.len() == 17);
    }
    assert("description"@ != "ruler"@) by {
        assert("description"@.len() == 11);
        assert("ruler"@.len() == 5);
    }
    assert("description"@ != "obverse_description"@) by {
        assert("description"@.len() == 11);
        assert("obverse_description"@.len() == 19);
    }
    assert("description"@ != "reverse_description"@) by {
        assert("description"@.len() == 11);
        assert("reverse_description"@.len() == 19);
    }
    assert("description"@ != "obverse_legend"@) by {
        assert("description"@.len() == 11);
        assert("obverse_legend"@.len() == 14);
    }
    assert("description"@ != "reverse_legend"@) by {
        assert("description"@.len() == 11);
        assert("reverse_legend"@.len() == 14);
    }
    assert("year"@ != "mint"@) by {
        assert("year"@[0] == 'y');
        assert("mint"@[0] == 'm');
    }
    assert("year"@ != "denomination"@) by {
        assert("year"@.len() == 4);
        assert("denomination"@.len() == 12);
    }
    assert("year"@ != "metal"@) by {
        assert("year"@.len() == 4);
        assert("metal"@.len() == 5);
    }
    assert("year"@ != "weight_grams"@) by {
        assert("year"@.len() == 4);
        assert("weight_grams"@.len() == 12);
    }
    assert("year"@ != "diameter_mm"@) by {
        assert("year"@.len() == 4);
        assert("diameter_mm"@.len() == 11);
    }
    assert("year"@ != "model_url"@) by {
        assert("year"@.len() == 4);
        assert("model_url"@.len() == 9);
    }
    assert("year"@ != "thumbnail_url"@) by {
        assert("year"@.len() == 4);
        assert("thumbnail_url"@.len() == 13);
    }
    assert("year"@ != "grade"@) by {
        assert("year"@.len() == 4);
        assert("grade"@.len() == 5);
    }
    assert("year"@ != "catalog_reference"@) by {
        assert("year"@.len() == 4);
        assert("catalog_reference"@.len() == 17);
    }
    assert("year"@ != "ruler"@) by {
        assert("year"@.len() == 4);
        assert("ruler"@.len() == 5);
    }
    assert("year"@ != "obverse_description"@) by {
        assert("year"@.len() == 4);
        assert("obverse_description"@.len() == 19);
    }
    assert("year"@ != "reverse_description"@) by {
        assert("year"@.len() == 4);
        assert("reverse_description"@.len() == 19);
    }
    assert("year"@ != "obverse_legend"@) by {
        assert("year"@.len() == 4);
        assert("obverse_legend"@.len() == 14);
    }
    assert("year"@ != "reverse_legend"@) by {
        assert("year"@.len() == 4);
        assert("reverse_legend"@.len() == 14);
    }
    assert("mint"@ != "denomination"@) by {
        assert("mint"@.len() == 4);
        assert("denomination"@.len() == 12);
    }
    assert("mint"@ != "metal"@) by {
        assert("mint"@.len() == 4);
        assert("metal"@.len() == 5);
    }
    assert("mint"@ != "weight_grams"@) by {
        assert("mint"@.len() == 4);
        assert("weight_grams"@.len() == 12);
    }
    assert("mint"@ != "diameter_mm"@) by {
        assert("mint"@.len() == 4);
        assert("diameter_mm"@.len() == 11);
    }
    assert("mint"@ != "model_url"@) by {
        assert("mint"@.len() == 4);
        assert("model_url"@.len() == 9);
    }
    assert("mint"@ != "thumbnail_url"@) by {
        assert("mint"@.len() == 4);
        assert("thumbnail_url"@.len() == 13);
    }
    assert("mint"@ != "grade"@) by {
        assert("mint"@.len() == 4);
        assert("grade"@.len() == 5);
    }
    assert("mint"@ != "catalog_reference"@) by {
        assert("mint"@.len() == 4);
        assert("catalog_reference"@.len() == 17);
    }
    assert("mint"@ != "ruler"@) by {
        assert("mint"@.len() == 4);
        assert("ruler"@.len() == 5);
    }
    assert("mint"@ != "obverse_description"@) by {
        assert("mint"@.len() == 4);
        assert("obverse_description"@.len() == 19);
    }
    assert("mint"@ != "reverse_description"@) by {
        assert("mint"@.len() == 4);
        assert("reverse_description"@.len() == 19);
    }
    assert("mint"@ != "obverse_legend"@) by {
        assert("mint"@.len() == 4);
        assert("obverse_legend"@.len() == 14);
    }
    assert("mint"@ != "reverse_legend"@) by {
        assert("mint"@.len() == 4);
        assert("reverse_legend"@.len() == 14);
    }
    assert("denomination"@ != "metal"@) by {
        assert("denomination"@.len() == 12);
        assert("metal"@.len() == 5);
    }
    assert("denomination"@ != "weight_grams"@) by {
        assert("denomination"@[0] == 'd');
        assert("weight_grams"@[0] == 'w');
    }
    assert("denomination"@ != "diameter_mm"@) by {
        assert("denomination"@.len() == 12);
        assert("diameter_mm"@.len() == 11);
    }
    assert("denomination"@ != "model_url"@) by {
        assert("denomination"@.len() == 12);
        assert("model_url"@.len() == 9);
    }
    assert("denomination"@ != "thumbnail_url"@) by {
        assert("denomination"@.len() == 12);
        assert("thumbnail_url"@.len() == 13);
    }
    assert("denomination"@ != "grade"@) by {
        assert("denomination"@.len() == 12);
        assert("grade"@.len() == 5);
    }
    assert("denomination"@ != "catalog_reference"@) by {
        assert("denomination"@.len() == 12);
        assert("catalog_reference"@.len() == 17);
    }
    assert("denomination"@ != "ruler"@) by {
        assert("denomination"@.len() == 12);
        assert("ruler"@.len() == 5);
    }
    assert("denomination"@ != "obverse_description"@) by {
        assert("denomination"@.len() == 12);
        assert("obverse_description"@.len() == 19);
    }
    assert("denomination"@ != "reverse_description"@) by {
        assert("denomination"@.len() == 12);
        assert("reverse_description"@.len() == 19);
    }
    assert("denomination"@ != "obverse_legend"@) by {
        assert("denomination"@.len() == 12);
        assert("obverse_legend"@.len() == 14);
    }
    assert("denomination"@ != "reverse_legend"@) by {
        assert("denomination"@.len() == 12);
        assert("reverse_legend"@.len() == 14);
    }
    assert("metal"@ != "weight_grams"@) by {
        assert("metal"@.len() == 5);
        assert("weight_grams"@.len() == 12);
    }
    assert("metal"@ != "diameter_mm"@) by {
        assert("metal"@.len() == 5);
        assert("diameter_mm"@.len() == 11);
    }
    assert("metal"@ != "model_url"@) by {
        assert("metal"@.len() == 5);
        assert("model_url"@.len() == 9);
    }
    assert("metal"@ != "thumbnail_url"@) by {
        assert("metal"@.len() == 5);
        assert("thumbnail_url"@.len() == 13);
    }
    assert("metal"@ != "grade"@) by {
        assert("metal"@[0] == 'm');
        assert("grade"@[0] == 'g');
    }
    assert("metal"@ != "catalog_reference"@) by {
        assert("metal"@.len() == 5);
        assert("catalog_reference"@.len() == 17);
    }
    assert("metal"@ != "ruler"@) by {
        assert("metal"@[0] == 'm');
        assert("ruler"@[0] == 'r');
    }
    assert("metal"@ != "obverse_description"@) by {
        assert("metal"@.len() == 5);
        assert("obverse_description"@.len() == 19);
    }
    assert("metal"@ != "reverse_description"@) by {
        assert("metal"@.len() == 5);
        assert("reverse_description"@.len() == 19);
    }
    assert("metal"@ != "obverse_legend"@) by {
        assert("metal"@.len() == 5);
        assert("obverse_legend"@.len() == 14);
    }
    assert("metal"@ != "reverse_legend"@) by {
        assert("metal"@.len() == 5);
        assert("reverse_legend"@.len() == 14);
    }
    assert("weight_grams"@ != "diameter_mm"@) by {
        assert("weight_grams"@.len() == 12);
        assert("diameter_mm"@.len() == 11);
    }
    assert("weight_grams"@ != "model_url"@) by {
        assert("weight_grams"@.len() == 12);
        assert("model_url"@.len() == 9);
    }
    assert("weight_grams"@ != "thumbnail_url"@) by {
        assert("weight_grams"@.len() == 12);
        assert("thumbnail_url"@.len() == 13);
    }
    assert("weight_grams"@ != "grade"@) by {
        assert("weight_grams"@.len() == 12);
        assert("grade"@.len() == 5);
    }
    assert("weight_grams"@ != "catalog_reference"@) by {
        assert("weight_grams"@.len() == 12);
        assert("catalog_reference"@.len() == 17);
    }
    assert("weight_grams"@ != "ruler"@) by {
        assert("weight_grams"@.len() == 12);
        assert("ruler"@.len() == 5);
    }
    assert("weight_grams"@ != "obverse_description"@) by {
        assert("weight_grams"@.len() == 12);
        assert("obverse_description"@.len() == 19);
    }
    assert("weight_grams"@ != "reverse_description"@) by {
        assert("weight_grams"@.len() == 12);
        assert("reverse_description"@.len() == 19);
    }
    assert("weight_grams"@ != "obverse_legend"@) by {
        assert("weight_grams"@.len() == 12);
        assert("obverse_legend"@.len() == 14);
    }
    assert("weight_grams"@ != "reverse_legend"@) by {
        assert("weight_grams"@.len() == 12);
        assert("reverse_legend"@.len() == 14);
    }
    assert("diameter_mm"@ != "model_url"@) by {
        assert("diameter_mm"@.len() == 11);
        assert("model_url"@.len() == 9);
    }
    assert("diameter_mm"@ != "thumbnail_url"@) by {
        assert("diameter_mm"@.len() == 11);
        assert("thumbnail_url"@.len() == 13);
    }
    assert("diameter_mm"@ != "grade"@) by {
        assert("diameter_mm"@.len() == 11);
        assert("grade"@.len() == 5);
    }
    assert("diameter_mm"@ != "catalog_reference"@) by {
        assert("diameter_mm"@.len() == 11);
        assert("catalog_reference"@.len() == 17);
    }
    assert("diameter_mm"@ != "ruler"@) by {
        assert("diameter_mm"@.len() == 11);
        assert("ruler"@.len() == 5);
    }
    assert("diameter_mm"@ != "obverse_description"@) by {
        assert("diameter_mm"@.len() == 11);
        assert("obverse_description"@.len() == 19);
    }
    assert("diameter_mm"@ != "reverse_description"@) by {
        assert("diameter_mm"@.len() == 11);
        assert("reverse_description"@.len() == 19);
    }
    assert("diameter_mm"@ != "obverse_legend"@) by {
        assert("diameter_mm"@.len() == 11);
        assert("obverse_legend"@.len() == 14);
    }
    assert("diameter_mm"@ != "reverse_legend"@) by {
        assert("diameter_mm"@.len() == 11);
        assert("reverse_legend"@.len() == 14);
    }
    assert("model_url"@ != "thumbnail_url"@) by {
        assert("model_url"@.len() == 9);
        assert("thumbnail_url"@.len() == 13);
    }
    assert("model_url"@ != "grade"@) by {
        assert("model_url"@.len() == 9);
        assert("grade"@.len() == 5);
    }
    assert("model_url"@ != "catalog_reference"@) by {
        assert("model_url"@.len() == 9);
        assert("catalog_reference"@.len() == 17);
    }
    assert("model_url"@ != "ruler"@) by {
        assert("model_url"@.len() == 9);
        assert("ruler"@.len() == 5);
    }
    assert("model_url"@ != "obverse_description"@) by {
        assert("model_url"@.len() == 9);
        assert("obverse_description"@.len() == 19);
    }
    assert("model_url"@ != "reverse_description"@) by {
        assert("model_url"@.len() == 9);
        assert("reverse_description"@.len() == 19);
    }
    assert("model_url"@ != "obverse_legend"@) by {
        assert("model_url"@.len() == 9);
        assert("obverse_legend"@.len() == 14);
    }
    assert("model_url"@ != "reverse_legend"@) by {
        assert("model_url"@.len() == 9);
        assert("reverse_legend"@.len() == 14);
    }
    assert("thumbnail_url"@ != "grade"@) by {
        assert("thumbnail_url"@.len() == 13);
        assert("grade"@.len() == 5);
    }
    assert("thumbnail_url"@ != "catalog_reference"@) by {
        assert("thumbnail_url"@.len() == 13);
        assert("catalog_reference"@.len() == 17);
    }
    assert("thumbnail_url"@ != "ruler"@) by {
        assert("thumbnail_url"@.len() == 13);
        assert("ruler"@.len() == 5);
    }
    assert("thumbnail_url"@ != "obverse_description"@) by {
        assert("thumbnail_url"@.len() == 13);
        assert("obverse_description"@.len() == 19);
    }
    assert("thumbnail_url"@ != "reverse_description"@) by {
        assert("thumbnail_url"@.len() == 13);
        assert("reverse_description"@.len() == 19);
    }
    assert("thumbnail_url"@ != "obverse_legend"@) by {
        assert("thumbnail_url"@.len() == 13);
        assert("obverse_legend"@.len() == 14);
    }
    assert("thumbnail_url"@ != "reverse_legend"@) by {
        assert("thumbnail_url"@.len() == 13);
        assert("reverse_legend"@.len() == 14);
    }
    assert("grade"@ != "catalog_reference"@) by {
        assert("grade"@.len() == 5);
        assert("catalog_reference"@.len() == 17);
    }
    assert("grade"@ != "ruler"@) by {
        assert("grade"@[0] == 'g');
        assert("ruler"@[0] == 'r');
    }
    assert("grade"@ != "obverse_description"@) by {
        assert("grade"@.len() == 5);
        assert("obverse_description"@.len() == 19);
    }
    assert("grade"@ != "reverse_description"@) by {
        assert("grade"@.len() == 5);
        assert("reverse_description"@.len() == 19);
    }
    assert("grade"@ != "obverse_legend"@) by {
        assert("grade"@.len() == 5);
        assert("obverse_legend"@.len() == 14);
    }
    assert("grade"@ != "reverse_legend"@) by {
        assert("grade"@.len() == 5);
        assert("reverse_legend"@.len() == 14);
    }
    assert("catalog_reference"@ != "ruler"@) by {
        assert("catalog_reference"@.len() == 17);
        assert("ruler"@.len() == 5);
    }
    assert("catalog_reference"@ != "obverse_description"@) by {
        assert("catalog_reference"@.len() == 17);
        assert("obverse_description"@.len() == 19);
    }
    assert("catalog_reference"@ != "reverse_description"@) by {
        assert("catalog_reference"@.len() == 17);
        assert("reverse_description"@.len() == 19);
    }
    assert("catalog_reference"@ != "obverse_legend"@) by {
        assert("catalog_reference"@.len() == 17);
        assert("obverse_legend"@.len() == 14);
    }
    assert("catalog_reference"@ != "reverse_legend"@) by {
        assert("catalog_reference"@.len() == 17);
        assert("reverse_legend"@.len() == 14);
    }
    assert("ruler"@ != "obverse_description"@) by {
        assert("ruler"@.len() == 5);
        assert("obverse_description"@.len() == 19);
    }
    assert("ruler"@ != "reverse_description"@) by {
        assert("ruler"@.len() == 5);
        assert("reverse_description"@.len() == 19);
    }
    assert("ruler"@ != "obverse_legend"@) by {
        assert("ruler"@.len() == 5);
        assert("obverse_legend"@.len() == 14);
    }
    assert("ruler"@ != "reverse_legend"@) by {
        assert("ruler"@.len() == 5);
        assert("reverse_legend"@.len() == 14);
    }
    assert("obverse_description"@ != "reverse_description"@) by {
        assert("obverse_description"@[0] == 'o');
        assert("reverse_description"@[0] == 'r');
    }
    assert("obverse_description"@ != "obverse_legend"@) by {
        assert("obverse_description"@.len() == 19);
        assert("obverse_legend"@.len() == 14);
    }
    assert("obverse_description"@ != "reverse_legend"@) by {
        assert("obverse_description"@.len() == 19);
        assert("reverse_legend"@.len() == 14);
    }
    assert("reverse_description"@ != "obverse_legend"@) by {
        assert("reverse_description"@.len() == 19);
        assert("obverse_legend"@.len() == 14);
    }
    assert("reverse_description"@ != "reverse_legend"@) by {
        assert("reverse_description"@.len() == 19);
        assert("reverse_legend"@.len() == 14);
    }
    assert("obverse_legend"@ != "reverse_legend"@) by {
        assert("obverse_legend"@[0] == 'o');
        assert("reverse_legend"@[0] == 'r');
    }
    assert(field_lookup(fs, "id"@) == Option::Some(FieldV::Str(c.id)));
    assert(field_lookup(fs, "name"@) == Option::Some(FieldV::Str(c.name)));
    assert(field_lookup(fs, "description"@) == Option::Some(FieldV::Str(c.description)));
    assert(field_lookup(fs, "year"@) == Option::Some(opt_str_field(c.year)));
    assert(field_lookup(fs, "mint"@) == Option::Some(opt_str_field(c.mint)));
    assert(field_lookup(fs, "denomination"@) == Option::Some(opt_str_field(c.denomination)));
    assert(field_lookup(fs, "metal"@) == Option::Some(opt_str_field(c.metal)));
    assert(field_lookup(fs, "weight_grams"@) == Option::Some(opt_num_field(c.weight_grams)));
    assert(field_lookup(fs, "diameter_mm"@) == Option::Some(opt_num_field(c.diameter_mm)));
    assert(field_lookup(fs, "model_url"@) == Option::Some(FieldV::Str(c.model_url)));
    assert(field_lookup(fs, "thumbnail_url"@) == Option::Some(opt_str_field(c.thumbnail_url)));
    assert(field_lookup(fs, "grade"@) == Option::Some(opt_str_field(c.grade)));
    assert(field_lookup(fs, "catalog_reference"@) == Option::Some(opt_str_field(c.catalog_reference)));
    assert(field_lookup(fs, "ruler"@) == Option::Some(opt_str_field(c.ruler)));
    assert(field_lookup(fs, "obverse_description"@) == Option::Some(opt_str_field(c.obverse_description)));
    assert(field_lookup(fs, "reverse_description"@) == Option::Some(opt_str_field(c.reverse_description)));
    assert(field_lookup(fs, "obverse_legend"@) == Option::Some(opt_str_field(c.obverse_legend)));
    assert(field_lookup(fs, "reverse_legend"@) == Option::Some(opt_str_field(c.reverse_legend)));
    assert(coin_fields_valid(fs));
    assert(spec_coin_of(fs)->0 =~= c);
}

/// An object that lacks one of the required fields (or carries it as
/// anything but a string) loads to no record at all.
pub proof fn lemma_missing_required_field_rejected(fs: Seq<(Seq<char>, FieldV)>)
    requires
        req_str(fs, "id"@) is None || req_str(fs, "name"@) is None || req_str(fs, "description"@)
            is None || req_str(fs, "model_url"@) is None,
    ensures
        spec_coin_of(fs) is None,
{
}

} // verus!
