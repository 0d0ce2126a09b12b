//! The catalog: an ordered, immutable sequence of coin records.
//!
//! A catalog is loaded once from the text of a `coins.json` document (or
//! from nothing, when the file is absent) and then only read: list all
//! records in order, find the first record with a given id, or render
//! either answer as the exact JSON text the service sends.

use vstd::prelude::*;

use crate::coin::Coin;
use crate::coin::CoinV;
use crate::coin::coin_of_fields;
use crate::coin::spec_coin_of;
use crate::coin::spec_coin_json;
use crate::json::DocV;
use crate::json::ItemV;
use crate::json::JsonDoc;
use crate::json::JsonItem;
use crate::json::catalog_doc_of;
use crate::json::parse_catalog_text;

verus! {

/// Why loading a catalog document failed.
#[derive(Clone, Copy, Debug, PartialEq, Eq, Structural)]
pub enum LoadError {
    /// The text is not well-formed JSON.
    Syntax,
    /// The document is JSON but not an array of well-formed records.
    Schema,
}

/// The in-memory catalog, never mutated after it is built.
#[derive(Debug)]
pub struct Catalog {
    coins: Vec<Coin>,
}

impl View for Catalog {
    type V = Seq<CoinV>;

    closed spec fn view(&self) -> Seq<CoinV> {
        self.coins@.map_values(|c: Coin| c@)
    }
}

// ------------------------------------------------------------------
// Loading
// ------------------------------------------------------------------

/// The record one top-level array element yields, if any.
pub open spec fn spec_item_coin(it: ItemV) -> Option<CoinV> {
    match it {
        ItemV::Record(fs) => spec_coin_of(fs),
        ItemV::NotRecord => Option::None,
    }
}

/// The records a top-level array yields: every element must yield one.
pub open spec fn spec_items_coins(items: Seq<ItemV>) -> Option<Seq<CoinV>>
    decreases items.len(),
{
    if items.len() == 0 {
        Option::Some(Seq::empty())
    } else {
        match (spec_items_coins(items.drop_last()), spec_item_coin(items.last())) {
            (Option::Some(cs), Option::Some(c)) => Option::Some(cs.push(c)),
            _ => Option::None,
        }
    }
}

/// What a parsed document loads to: the records in document order, or the
/// error that rejects it.
pub open spec fn spec_load_doc(doc: DocV) -> Result<Seq<CoinV>, LoadError> {
    match doc {
        DocV::Invalid => Result::Err(LoadError::Syntax),
        DocV::NotArray => Result::Err(LoadError::Schema),
        DocV::Records(items) => match spec_items_coins(items) {
            Option::Some(cs) => Result::Ok(cs),
            Option::None => Result::Err(LoadError::Schema),
        },
    }
}

proof fn lemma_items_coins_none(items: Seq<ItemV>, i: int)
    requires
        0 <= i < items.len(),
        spec_item_coin(items[i]) is None,
    ensures
        spec_items_coins(items) is None,
    decreases items.len(),
{
    if i == items.len() - 1 {
    } else {
        lemma_items_coins_none(items.drop_last(), i);
    }
}

/// Builds the catalog out of one parsed document, exactly as
/// [`spec_load_doc`] says: every array element must be an object carrying
/// a well-formed record, and the records keep the document's order.
#[verifier::rlimit(60)]
pub fn catalog_of_doc(doc: JsonDoc) -> (r: Result<Catalog, LoadError>)
    ensures
        match spec_load_doc(doc@) {
            Result::Ok(cs) => r matches Result::Ok(c) && c@ == cs,
            Result::Err(e) => r matches Result::Err(e2) && e2 == e,
        },
{
    match &doc {
        JsonDoc::Invalid => Result::Err(LoadError::Syntax),
        JsonDoc::NotArray => Result::Err(LoadError::Schema),
        JsonDoc::Records(items) => {
            let ghost itemsv = items@.map_values(|it: JsonItem| it@);
            let mut coins: Vec<Coin> = Vec::new();
            let n = items.len();
            let mut i: usize = 0;
            while i < n
                invariant
                    i <= n,
                    n == items@.len(),
                    itemsv == items@.map_values(|it: JsonItem| it@),
                    doc@ == DocV::Records(itemsv),
                    spec_items_coins(itemsv.subrange(0, i as int)) == Option::Some(
                        coins@.map_values(|c: Coin| c@),
                    ),
                decreases n - i,
            {
                proof {
                    assert(itemsv[i as int] == items@[i as int]@);
                }
                match &items[i] {
                    JsonItem::NotRecord => {
                        proof {
                            lemma_items_coins_none(itemsv, i as int);
                        }
                        return Result::Err(LoadError::Schema);
                    },
                    JsonItem::Record(fs) => {
                        match coin_of_fields(fs) {
                            Option::Some(c) => {
                                proof {
                                    assert(crate::coin::fields_view(fs@) =~= itemsv[i as int]->Record_0);
                                }
                                let ghost pre_coins = coins@;
                                coins.push(c);
                                proof {
                                    let pre = itemsv.subrange(0, i as int);
                                    let post = itemsv.subrange(0, i + 1 as int);
                                    assert(post.drop_last() =~= pre);
                                    assert(post.last() == itemsv[i as int]);
                                    assert(coins@.map_values(|cc: Coin| cc@) =~= pre_coins.map_values(
                                        |cc: Coin| cc@,
                                    ).push(c@));
                                }
                            },
                            Option::None => {
                                proof {
                                    assert(crate::coin::fields_view(fs@) =~= itemsv[i as int]->Record_0);
                                    lemma_items_coins_none(itemsv, i as int);
                                }
                                return Result::Err(LoadError::Schema);
                            },
                        }
                    },
                }
                i = i + 1;
            }
            proof {
                assert(itemsv.subrange(0, n as int) =~= itemsv);
            }
            Result::Ok(Catalog { coins })
        },
    }
}

/// Loads the catalog from the contents of the catalog document, or from
/// nothing. An absent document is an empty catalog, not an error; a
/// present one must be one JSON array of well-formed records.
pub fn load_catalog(contents: Option<&str>) -> (r: Result<Catalog, LoadError>)
    ensures
        match contents {
            Option::None => r matches Result::Ok(c) && c@ == Seq::<CoinV>::empty(),
            Option::Some(s) => match spec_load_doc(catalog_doc_of(s@)) {
                Result::Ok(cs) => r matches Result::Ok(c) && c@ == cs,
                Result::Err(e) => r matches Result::Err(e2) && e2 == e,
            },
        },
{
    match contents {
        Option::None => {
            let coins: Vec<Coin> = Vec::new();
            proof {
                assert(coins@.map_values(|c: Coin| c@) =~= Seq::<CoinV>::empty());
            }
            Result::Ok(Catalog { coins })
        },
        Option::Some(s) => catalog_of_doc(parse_catalog_text(s)),
    }
}

// ------------------------------------------------------------------
// Queries
// ------------------------------------------------------------------

/// The first record whose id equals `id` exactly, if any.
pub open spec fn spec_find(cat: Seq<CoinV>, id: Seq<char>) -> Option<CoinV>
    decreases cat.len(),
{
    if cat.len() == 0 {
        Option::None
    } else if cat[0].id == id {
        Option::Some(cat[0])
    } else {
        spec_find(cat.subrange(1, cat.len() as int), id)
    }
}

/// A lookup answers the id if and only if some record carries it, and
/// then answers the first such record: the id before any match never
/// matches, so duplicate ids resolve to the earliest record.
pub proof fn lemma_find_first_match(cat: Seq<CoinV>, id: Seq<char>)
    ensures
        spec_find(cat, id) is None <==> (forall|i: int|
            0 <= i < cat.len() ==> (#[trigger] cat[i]).id != id),
        spec_find(cat, id) matches Option::Some(c) ==> exists|i: int|
            0 <= i < cat.len() && #[trigger] cat[i] == c && cat[i].id == id && (forall|j: int|
                0 <= j < i ==> (#[trigger] cat[j]).id != id),
    decreases cat.len(),
{
    if cat.len() == 0 {
    } else if cat[0].id == id {
        let c = spec_find(cat, id)->0;
        assert(cat[0] == c && cat[0].id == id && (forall|j: int|
            0 <= j < 0 ==> (#[trigger] cat[j]).id != id));
    } else {
        let tail = cat.subrange(1, cat.len() as int);
        lemma_find_first_match(tail, id);
        assert(forall|i: int| 0 <= i < tail.len() ==> #[trigger] tail[i] == cat[i + 1]);
        if spec_find(cat, id) is None {
            assert(forall|i: int| 0 <= i < cat.len() ==> (#[trigger] cat[i]).id != id) by {
                assert(forall|i: int|
                    1 <= i < cat.len() ==> (#[trigger] cat[i]).id == tail[i - 1].id);
            }
        }
        if spec_find(cat, id) is Some {
            let c = spec_find(cat, id)->0;
            let i = choose|i: int|
                0 <= i < tail.len() && #[trigger] tail[i] == c && tail[i].id == id && (forall|
                    j: int,
                |
                    0 <= j < i ==> (#[trigger] tail[j]).id != id);
            assert(cat[i + 1] == c && cat[i + 1].id == id);
            assert(forall|j: int| 0 <= j < i + 1 ==> (#[trigger] cat[j]).id != id) by {
                assert(forall|j: int| 1 <= j < i + 1 ==> (#[trigger] cat[j]).id == tail[j - 1].id);
            }
        }
    }
}

impl Catalog {
    /// A catalog holding exactly the given records, in order.
    pub fn new(coins: Vec<Coin>) -> (r: Catalog)
        ensures
            r@.len() == coins@.len(),
            forall|i: int| 0 <= i < coins@.len() ==> r@[i] == (#[trigger] coins@[i])@,
    {
        Catalog { coins }
    }

    /// How many records the catalog holds.
    pub fn len(&self) -> (r: usize)
        ensures
            r == self@.len(),
    {
        self.coins.len()
    }

    /// All records, in the order they were loaded.
    pub fn list_coins(&self) -> (r: Vec<Coin>)
        ensures
            r@.len() == self@.len(),
            forall|i: int| 0 <= i < r@.len() ==> (#[trigger] r@[i])@ == self@[i],
    {
        let n = self.coins.len();
        let mut out: Vec<Coin> = Vec::new();
        let mut i: usize = 0;
        while i < n
            invariant
                i <= n,
                n == self.coins@.len(),
                out@.len() == i,
                forall|j: int| 0 <= j < i ==> (#[trigger] out@[j])@ == self@[j],
            decreases n - i,
        {
            out.push(self.coins[i].clone());
            i = i + 1;
        }
        out
    }

    /// The first record with the given id, exactly matched, or nothing.
    pub fn get_coin(&self, id: &str) -> (r: Option<Coin>)
        ensures
            match r {
                Option::Some(c) => spec_find(self@, id@) == Option::Some(c@),
                Option::None => spec_find(self@, id@) is None,
            },
    {
        let key = String::from_str(id);
        let ghost whole = self@;
        proof {
            assert(whole.subrange(0, whole.len() as int) =~= whole);
        }
        let n = self.coins.len();
        let mut i: usize = 0;
        while i < n
            invariant
                i <= n,
                n == self.coins@.len(),
                whole == self@,
                key@ == id@,
                spec_find(whole, id@) == spec_find(whole.subrange(i as int, whole.len() as int), id@),
            decreases n - i,
        {
            proof {
                assert(whole[i as int] == self.coins@[i as int]@);
            }
            if self.coins[i].id == key {
                proof {
                    let tail = whole.subrange(i as int, whole.len() as int);
                    assert(tail[0] == whole[i as int]);
                }
                return Option::Some(self.coins[i].clone());
            }
            proof {
                let tail = whole.subrange(i as int, whole.len() as int);
                assert(tail[0] == whole[i as int]);
                assert(tail.subrange(1, tail.len() as int) =~= whole.subrange(
                    i + 1,
                    whole.len() as int,
                ));
            }
            i = i + 1;
        }
        proof {
            assert(whole.subrange(n as int, whole.len() as int).len() == 0);
        }
        Option::None
    }
}

// ------------------------------------------------------------------
// The service's responses
// ------------------------------------------------------------------

/// The liveness answer: always the same two bytes.
pub fn health() -> (r: &'static str)
    ensures
        r@ == "OK"@,
{
    "OK"
}

/// The body sent with a lookup of an id no record carries.
pub fn not_found_body() -> (r: &'static str)
    ensures
        r@ == "{\"error\":\"Coin not found\"}"@,
{
    "{\"error\":\"Coin not found\"}"
}

/// The records joined by commas, each as its JSON text.
pub open spec fn spec_join(cat: Seq<CoinV>) -> Seq<char>
    decreases cat.len(),
{
    if cat.len() == 0 {
        Seq::empty()
    } else if cat.len() == 1 {
        spec_coin_json(cat[0])
    } else {
        spec_join(cat.drop_last()) + ","@ + spec_coin_json(cat.last())
    }
}

/// The exact JSON text of the whole catalog: one array, document order.
pub open spec fn spec_catalog_json(cat: Seq<CoinV>) -> Seq<char> {
    "["@ + spec_join(cat) + "]"@
}

/// The status and body answering a lookup of `id`.
pub open spec fn spec_get_coin_response(cat: Seq<CoinV>, id: Seq<char>) -> (u16, Seq<char>) {
    match spec_find(cat, id) {
        Option::Some(c) => (200u16, spec_coin_json(c)),
        Option::None => (404u16, "{\"error\":\"Coin not found\"}"@),
    }
}

impl Catalog {
    /// The exact JSON text listing every record, in order.
    pub fn coins_json(&self) -> (r: String)
        ensures
            r@ == spec_catalog_json(self@),
    {
        let mut out = String::new();
        out.append("[");
        proof {
            assert(out@ =~= "["@);
        }
        let n = self.coins.len();
        let mut i: usize = 0;
        while i < n
            invariant
                i <= n,
                n == self.coins@.len(),
                n == self@.len(),
                out@ == "["@ + spec_join(self@.subrange(0, i as int)),
            decreases n - i,
        {
            if i > 0 {
                out.append(",");
            }
            let s = self.coins[i].to_json();
            out.append(s.as_str());
            proof {
                assert(self.coins@[i as int]@ == self@[i as int]);
                let pre = self@.subrange(0, i as int);
                let post = self@.subrange(0, i + 1 as int);
                assert(post.drop_last() =~= pre);
                assert(post.last() == self@[i as int]);
                assert(out@ =~= "["@ + spec_join(post));
            }
            i = i + 1;
        }
        out.append("]");
        proof {
            assert(self@.subrange(0, n as int) =~= self@);
            assert(out@ =~= spec_catalog_json(self@));
        }
        out
    }

    /// The status and exact body answering a lookup: the first matching
    /// record's JSON text under 200, or the not-found body under 404.
    pub fn get_coin_response(&self, id: &str) -> (r: (u16, String))
        ensures
            r.0 == spec_get_coin_response(self@, id@).0,
            r.1@ == spec_get_coin_response(self@, id@).1,
    {
        match self.get_coin(id) {
            Option::Some(c) => (200, c.to_json()),
            Option::None => (404, String::from_str(not_found_body())),
        }
    }
}

/// Reading never writes: every response is a function of the catalog's
/// value and the request alone, and the read operations take the catalog
/// immutably, so repeating an identical request yields the identical
/// response.
pub proof fn lemma_identical_requests_identical_responses(a: &Catalog, b: &Catalog, id: Seq<char>)
    requires
        a@ == b@,
    ensures
        spec_get_coin_response(a@, id) == spec_get_coin_response(b@, id),
        spec_catalog_json(a@) == spec_catalog_json(b@),
{
}

/// A whole catalog rendered record by record to JSON object fields and
/// read back is the same catalog: the same records, in the same order.
pub proof fn lemma_catalog_fields_round_trip(cs: Seq<CoinV>)
    ensures
        spec_items_coins(cs.map_values(|c: CoinV| ItemV::Record(crate::coin::coin_fields(c))))
            == Option::Some(cs),
    decreases cs.len(),
{
    let items = cs.map_values(|c: CoinV| ItemV::Record(crate::coin::coin_fields(c)));
    if cs.len() == 0 {
        assert(items.len() == 0);
    } else {
        lemma_catalog_fields_round_trip(cs.drop_last());
        crate::coin::lemma_coin_fields_round_trip(cs.last());
        assert(items.drop_last() =~= cs.drop_last().map_values(
            |c: CoinV| ItemV::Record(crate::coin::coin_fields(c)),
        ));
        assert(items.last() == ItemV::Record(crate::coin::coin_fields(cs.last())));
        assert(cs.drop_last().push(cs.last()) =~= cs);
    }
}

} // verus!
