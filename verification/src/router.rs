//! Request-boundary parsing: every int64 travels as a JSON string so that a browser never rounds
//! it, and the HTTP adapter turns it back into the native integer.
use vstd::prelude::*;

use crate::service::{catalog_read_tokens, catalog_write_tokens};
use crate::decimal::{int64_value, integer_literal_value, literal_unsigned, parse_i64_text};
use crate::text::{
    decimal_text, is_ascii_digit, is_white_space, lemma_decimal_text, signed_decimal_text, trim,
    trim_end, trim_start,
};

verus! {

/// The message for a wire field that is not a decimal int64 string.
pub open spec fn bad_int64_message(field: Seq<char>, raw: Seq<char>) -> Seq<char> {
    field + " must be a decimal int64 string, got `"@ + raw + "`"@
}

/// Parses an int64 string (surrounding white space aside), naming the wire field on failure.
pub fn parse_int64(field: &str, raw: &str) -> (r: Result<i64, String>)
    ensures
        match int64_value(raw@) {
            Some(v) => r == Ok::<i64, String>(v),
            None => r matches Err(m) && m@ == bad_int64_message(field@, raw@),
        },
{
    match parse_i64_text(raw) {
        Some(v) => Ok(v),
        None => {
            let mut message = String::from_str(field);
            message.append(" must be a decimal int64 string, got `");
            message.append(raw);
            message.append("`");
            Err(message)
        },
    }
}

/// Parses an optional int64 string; absence stays absence.
pub fn parse_optional_int64(field: &str, raw: Option<&str>) -> (r: Result<Option<i64>, String>)
    ensures
        match raw {
            None => r == Ok::<Option<i64>, String>(None),
            Some(text) => match int64_value(text@) {
                Some(v) => r == Ok::<Option<i64>, String>(Some(v)),
                None => r matches Err(m) && m@ == bad_int64_message(field@, text@),
            },
        },
{
    match raw {
        None => Ok(None),
        Some(text) => match parse_int64(field, text) {
            Ok(v) => Ok(Some(v)),
            Err(m) => Err(m),
        },
    }
}


/// An int64 written in decimal, as responses write ids, counts and amounts, parses back at the
/// request boundary to the same value.
pub proof fn law_int64_text_round_trip(n: i64)
    ensures
        int64_value(signed_decimal_text(n as int)) == Some(n),
{
    let magnitude: nat = if n < 0 {
        (-(n as int)) as nat
    } else {
        n as nat
    };
    lemma_decimal_text(magnitude);
    let digits = decimal_text(magnitude);
    let t = signed_decimal_text(n as int);
    assert(is_ascii_digit(digits[0]));
    assert(is_ascii_digit(digits.last()));
    assert(!is_white_space(t[0]));
    assert(t.last() == digits.last());
    assert(!is_white_space(t.last()));
    assert(trim_start(t) == t);
    assert(trim_end(t) == t);
    assert(trim(t) == t);
    if n < 0 {
        assert(literal_unsigned(t) =~= digits);
    } else {
        assert(literal_unsigned(t) =~= digits);
    }
    assert(integer_literal_value(t) == Some(n as int));
}


/// An HTTP method a catalog route answers.
#[derive(Clone, Copy, Debug, PartialEq, Eq, Structural)]
pub enum HttpMethod {
    Get,
    Post,
    Patch,
    Delete,
}

/// One route of the catalog API: a method on a path template, and the operation it serves.
#[derive(Clone, Copy, Debug)]
pub struct CatalogRoute {
    pub method: HttpMethod,
    pub path: &'static str,
    pub operation: &'static str,
}

/// The view of a route: its method, path and operation texts.
pub open spec fn route_view(r: CatalogRoute) -> (HttpMethod, Seq<char>, Seq<char>) {
    (r.method, r.path@, r.operation@)
}

/// The catalog routes, in mounting order.
pub open spec fn catalog_route_table() -> Seq<(HttpMethod, Seq<char>, Seq<char>)> {
    seq![
        (HttpMethod::Get, "/backend/v3/api/catalog/categories"@, "categories.management.list"@),
        (HttpMethod::Post, "/backend/v3/api/catalog/categories"@, "categories.create"@),
        (HttpMethod::Patch, "/backend/v3/api/catalog/categories/{categoryId}"@, "categories.update"@),
        (HttpMethod::Delete, "/backend/v3/api/catalog/categories/{categoryId}"@, "categories.delete"@),
        (HttpMethod::Get, "/backend/v3/api/catalog/products"@, "products.management.list"@),
        (HttpMethod::Post, "/backend/v3/api/catalog/products"@, "products.create"@),
        (HttpMethod::Get, "/backend/v3/api/catalog/products/{productId}"@, "products.management.retrieve"@),
        (HttpMethod::Patch, "/backend/v3/api/catalog/products/{productId}"@, "products.update"@),
        (HttpMethod::Delete, "/backend/v3/api/catalog/products/{productId}"@, "products.delete"@),
        (HttpMethod::Post, "/backend/v3/api/catalog/products/{productId}/publish"@, "products.publish"@),
        (HttpMethod::Post, "/backend/v3/api/catalog/products/{productId}/archive"@, "products.archive"@),
        (HttpMethod::Get, "/backend/v3/api/catalog/skus"@, "skus.list"@),
        (HttpMethod::Post, "/backend/v3/api/catalog/skus"@, "skus.create"@),
        (HttpMethod::Patch, "/backend/v3/api/catalog/skus/{skuId}"@, "skus.update"@),
        (HttpMethod::Delete, "/backend/v3/api/catalog/skus/{skuId}"@, "skus.delete"@),
        (HttpMethod::Get, "/backend/v3/api/catalog/attributes"@, "attributes.management.list"@),
        (HttpMethod::Post, "/backend/v3/api/catalog/attributes"@, "attributes.create"@),
        (HttpMethod::Get, "/backend/v3/api/catalog/category_attributes"@, "categoryAttributes.list"@),
        (HttpMethod::Post, "/backend/v3/api/catalog/category_attributes"@, "categoryAttributes.create"@),
        (HttpMethod::Patch, "/backend/v3/api/catalog/category_attributes/{bindingId}"@, "categoryAttributes.update"@),
        (HttpMethod::Delete, "/backend/v3/api/catalog/category_attributes/{bindingId}"@, "categoryAttributes.delete"@),
        (HttpMethod::Get, "/backend/v3/api/catalog/price_lists"@, "priceLists.list"@),
        (HttpMethod::Post, "/backend/v3/api/catalog/price_lists"@, "priceLists.create"@),
        (HttpMethod::Patch, "/backend/v3/api/catalog/price_lists/{priceListId}"@, "priceLists.update"@),
        (HttpMethod::Get, "/backend/v3/api/catalog/media"@, "media.list"@),
        (HttpMethod::Post, "/backend/v3/api/catalog/media"@, "media.create"@),
        (HttpMethod::Patch, "/backend/v3/api/catalog/media/{mediaId}"@, "media.update"@),
        (HttpMethod::Delete, "/backend/v3/api/catalog/media/{mediaId}"@, "media.delete"@),
    ]
}

/// The routes the catalog API mounts.
pub fn catalog_routes() -> (r: Vec<CatalogRoute>)
    ensures
        r@.map_values(|x: CatalogRoute| route_view(x)) == catalog_route_table(),
{
    let r = vec![
        CatalogRoute { method: HttpMethod::Get, path: "/backend/v3/api/catalog/categories", operation: "categories.management.list" },
        CatalogRoute { method: HttpMethod::Post, path: "/backend/v3/api/catalog/categories", operation: "categories.create" },
        CatalogRoute { method: HttpMethod::Patch, path: "/backend/v3/api/catalog/categories/{categoryId}", operation: "categories.update" },
        CatalogRoute { method: HttpMethod::Delete, path: "/backend/v3/api/catalog/categories/{categoryId}", operation: "categories.delete" },
        CatalogRoute { method: HttpMethod::Get, path: "/backend/v3/api/catalog/products", operation: "products.management.list" },
        CatalogRoute { method: HttpMethod::Post, path: "/backend/v3/api/catalog/products", operation: "products.create" },
        CatalogRoute { method: HttpMethod::Get, path: "/backend/v3/api/catalog/products/{productId}", operation: "products.management.retrieve" },
        CatalogRoute { method: HttpMethod::Patch, path: "/backend/v3/api/catalog/products/{productId}", operation: "products.update" },
        CatalogRoute { method: HttpMethod::Delete, path: "/backend/v3/api/catalog/products/{productId}", operation: "products.delete" },
        CatalogRoute { method: HttpMethod::Post, path: "/backend/v3/api/catalog/products/{productId}/publish", operation: "products.publish" },
        CatalogRoute { method: HttpMethod::Post, path: "/backend/v3/api/catalog/products/{productId}/archive", operation: "products.archive" },
        CatalogRoute { method: HttpMethod::Get, path: "/backend/v3/api/catalog/skus", operation: "skus.list" },
        CatalogRoute { method: HttpMethod::Post, path: "/backend/v3/api/catalog/skus", operation: "skus.create" },
        CatalogRoute { method: HttpMethod::Patch, path: "/backend/v3/api/catalog/skus/{skuId}", operation: "skus.update" },
        CatalogRoute { method: HttpMethod::Delete, path: "/backend/v3/api/catalog/skus/{skuId}", operation: "skus.delete" },
        CatalogRoute { method: HttpMethod::Get, path: "/backend/v3/api/catalog/attributes", operation: "attributes.management.list" },
        CatalogRoute { method: HttpMethod::Post, path: "/backend/v3/api/catalog/attributes", operation: "attributes.create" },
        CatalogRoute { method: HttpMethod::Get, path: "/backend/v3/api/catalog/category_attributes", operation: "categoryAttributes.list" },
        CatalogRoute { method: HttpMethod::Post, path: "/backend/v3/api/catalog/category_attributes", operation: "categoryAttributes.create" },
        CatalogRoute { method: HttpMethod::Patch, path: "/backend/v3/api/catalog/category_attributes/{bindingId}", operation: "categoryAttributes.update" },
        CatalogRoute { method: HttpMethod::Delete, path: "/backend/v3/api/catalog/category_attributes/{bindingId}", operation: "categoryAttributes.delete" },
        CatalogRoute { method: HttpMethod::Get, path: "/backend/v3/api/catalog/price_lists", operation: "priceLists.list" },
        CatalogRoute { method: HttpMethod::Post, path: "/backend/v3/api/catalog/price_lists", operation: "priceLists.create" },
        CatalogRoute { method: HttpMethod::Patch, path: "/backend/v3/api/catalog/price_lists/{priceListId}", operation: "priceLists.update" },
        CatalogRoute { method: HttpMethod::Get, path: "/backend/v3/api/catalog/media", operation: "media.list" },
        CatalogRoute { method: HttpMethod::Post, path: "/backend/v3/api/catalog/media", operation: "media.create" },
        CatalogRoute { method: HttpMethod::Patch, path: "/backend/v3/api/catalog/media/{mediaId}", operation: "media.update" },
        CatalogRoute { method: HttpMethod::Delete, path: "/backend/v3/api/catalog/media/{mediaId}", operation: "media.delete" },
    ];
    assert(r@.map_values(|x: CatalogRoute| route_view(x)) =~= catalog_route_table());
    r
}

/// Every route serves a declared capability and every declared capability is served by a route:
/// the operations of the route table are exactly the write and read tokens of the catalog
/// contract.
pub proof fn law_routes_serve_exactly_the_declared_capabilities()
    ensures
        forall|i: int|
            0 <= i < catalog_route_table().len() ==> (catalog_write_tokens()
                + catalog_read_tokens()).contains(#[trigger] catalog_route_table()[i].2),
        forall|j: int|
            0 <= j < (catalog_write_tokens() + catalog_read_tokens()).len() ==> catalog_route_table().map_values(
                |x: (HttpMethod, Seq<char>, Seq<char>)| x.2,
            ).contains(#[trigger] (catalog_write_tokens() + catalog_read_tokens())[j]),
{
    let table = catalog_route_table();
    let tokens = catalog_write_tokens() + catalog_read_tokens();
    let ops = table.map_values(|x: (HttpMethod, Seq<char>, Seq<char>)| x.2);
    assert(table[0].2 == tokens[20]);
    assert(table[1].2 == tokens[0]);
    assert(table[2].2 == tokens[1]);
    assert(table[3].2 == tokens[2]);
    assert(table[4].2 == tokens[24]);
    assert(table[5].2 == tokens[9]);
    assert(table[6].2 == tokens[25]);
    assert(table[7].2 == tokens[10]);
    assert(table[8].2 == tokens[11]);
    assert(table[9].2 == tokens[12]);
    assert(table[10].2 == tokens[13]);
    assert(table[11].2 == tokens[26]);
    assert(table[12].2 == tokens[14]);
    assert(table[13].2 == tokens[15]);
    assert(table[14].2 == tokens[16]);
    assert(table[15].2 == tokens[21]);
    assert(table[16].2 == tokens[3]);
    assert(table[17].2 == tokens[22]);
    assert(table[18].2 == tokens[4]);
    assert(table[19].2 == tokens[5]);
    assert(table[20].2 == tokens[6]);
    assert(table[21].2 == tokens[23]);
    assert(table[22].2 == tokens[7]);
    assert(table[23].2 == tokens[8]);
    assert(table[24].2 == tokens[27]);
    assert(table[25].2 == tokens[17]);
    assert(table[26].2 == tokens[18]);
    assert(table[27].2 == tokens[19]);
    assert forall|i: int| 0 <= i < table.len() implies tokens.contains(#[trigger] table[i].2) by {
        if i == 0 {
            assert(tokens[20] == table[i].2);
        }
        if i == 1 {
            assert(tokens[0] == table[i].2);
        }
        if i == 2 {
            assert(tokens[1] == table[i].2);
        }
        if i == 3 {
            assert(tokens[2] == table[i].2);
        }
        if i == 4 {
            assert(tokens[24] == table[i].2);
        }
        if i == 5 {
            assert(tokens[9] == table[i].2);
        }
        if i == 6 {
            assert(tokens[25] == table[i].2);
        }
        if i == 7 {
            assert(tokens[10] == table[i].2);
        }
        if i == 8 {
            assert(tokens[11] == table[i].2);
        }
        if i == 9 {
            assert(tokens[12] == table[i].2);
        }
        if i == 10 {
            assert(tokens[13] == table[i].2);
        }
        if i == 11 {
            assert(tokens[26] == table[i].2);
        }
        if i == 12 {
            assert(tokens[14] == table[i].2);
        }
        if i == 13 {
            assert(tokens[15] == table[i].2);
        }
        if i == 14 {
            assert(tokens[16] == table[i].2);
        }
        if i == 15 {
            assert(tokens[21] == table[i].2);
        }
        if i == 16 {
            assert(tokens[3] == table[i].2);
        }
        if i == 17 {
            assert(tokens[22] == table[i].2);
        }
        if i == 18 {
            assert(tokens[4] == table[i].2);
        }
        if i == 19 {
            assert(tokens[5] == table[i].2);
        }
        if i == 20 {
            assert(tokens[6] == table[i].2);
        }
        if i == 21 {
            assert(tokens[23] == table[i].2);
        }
        if i == 22 {
            assert(tokens[7] == table[i].2);
        }
        if i == 23 {
            assert(tokens[8] == table[i].2);
        }
        if i == 24 {
            assert(tokens[27] == table[i].2);
        }
        if i == 25 {
            assert(tokens[17] == table[i].2);
        }
        if i == 26 {
            assert(tokens[18] == table[i].2);
        }
        if i == 27 {
            assert(tokens[19] == table[i].2);
        }
    }
    assert forall|j: int| 0 <= j < tokens.len() implies ops.contains(#[trigger] tokens[j]) by {
        if j == 0 {
            assert(ops[1] == tokens[j]);
        }
        if j == 1 {
            assert(ops[2] == tokens[j]);
        }
        if j == 2 {
            assert(ops[3] == tokens[j]);
        }
        if j == 3 {
            assert(ops[16] == tokens[j]);
        }
        if j == 4 {
            assert(ops[18] == tokens[j]);
        }
        if j == 5 {
            assert(ops[19] == tokens[j]);
        }
        if j == 6 {
            assert(ops[20] == tokens[j]);
        }
        if j == 7 {
            assert(ops[22] == tokens[j]);
        }
        if j == 8 {
            assert(ops[23] == tokens[j]);
        }
        if j == 9 {
            assert(ops[5] == tokens[j]);
        }
        if j == 10 {
            assert(ops[7] == tokens[j]);
        }
        if j == 11 {
            assert(ops[8] == tokens[j]);
        }
        if j == 12 {
            assert(ops[9] == tokens[j]);
        }
        if j == 13 {
            assert(ops[10] == tokens[j]);
        }
        if j == 14 {
            assert(ops[12] == tokens[j]);
        }
        if j == 15 {
            assert(ops[13] == tokens[j]);
        }
        if j == 16 {
            assert(ops[14] == tokens[j]);
        }
        if j == 17 {
            assert(ops[25] == tokens[j]);
        }
        if j == 18 {
            assert(ops[26] == tokens[j]);
        }
        if j == 19 {
            assert(ops[27] == tokens[j]);
        }
        if j == 20 {
            assert(ops[0] == tokens[j]);
        }
        if j == 21 {
            assert(ops[15] == tokens[j]);
        }
        if j == 22 {
            assert(ops[17] == tokens[j]);
        }
        if j == 23 {
            assert(ops[21] == tokens[j]);
        }
        if j == 24 {
            assert(ops[4] == tokens[j]);
        }
        if j == 25 {
            assert(ops[6] == tokens[j]);
        }
        if j == 26 {
            assert(ops[11] == tokens[j]);
        }
        if j == 27 {
            assert(ops[24] == tokens[j]);
        }
    }
}

} // verus!
