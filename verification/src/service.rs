//! The catalog's declared capability set.
use vstd::prelude::*;

use crate::contract::{contract_well_formed, token_texts, CommerceServiceContract};
use crate::text::{is_blank, is_white_space, trim_end, trim_start};
use crate::ports::{CATALOG_REPOSITORY_PORT, IDEMPOTENCY_REPOSITORY_PORT};

verus! {

/// The write commands the catalog serves: one token per registered write route.
pub open spec fn catalog_write_tokens() -> Seq<Seq<char>> {
    seq![
        "categories.create"@,
        "categories.update"@,
        "categories.delete"@,
        "attributes.create"@,
        "categoryAttributes.create"@,
        "categoryAttributes.update"@,
        "categoryAttributes.delete"@,
        "priceLists.create"@,
        "priceLists.update"@,
        "products.create"@,
        "products.update"@,
        "products.delete"@,
        "products.publish"@,
        "products.archive"@,
        "skus.create"@,
        "skus.update"@,
        "skus.delete"@,
        "media.create"@,
        "media.update"@,
        "media.delete"@,
    ]
}

/// The read queries the catalog serves: one token per registered read route.
pub open spec fn catalog_read_tokens() -> Seq<Seq<char>> {
    seq![
        "categories.management.list"@,
        "attributes.management.list"@,
        "categoryAttributes.list"@,
        "priceLists.list"@,
        "products.management.list"@,
        "products.management.retrieve"@,
        "skus.list"@,
        "media.list"@,
    ]
}

/// The catalog capability: domain `catalog`, service `commerce.catalog`, the route operation
/// tokens verbatim, the catalog and idempotency repository ports, and tenant scoping. The
/// declaration is well formed: every token is present and none is declared twice.
pub fn catalog_service_contract() -> (c: CommerceServiceContract)
    ensures
        c.domain@ == "catalog"@,
        c.service_name@ == "commerce.catalog"@,
        token_texts(c.write_commands@) == catalog_write_tokens(),
        token_texts(c.read_queries@) == catalog_read_tokens(),
        token_texts(c.required_ports@) == seq![CATALOG_REPOSITORY_PORT@, IDEMPOTENCY_REPOSITORY_PORT@],
        c.tenant_scoped,
        contract_well_formed(c),
{
    let writes = vec![
        "categories.create",
        "categories.update",
        "categories.delete",
        "attributes.create",
        "categoryAttributes.create",
        "categoryAttributes.update",
        "categoryAttributes.delete",
        "priceLists.create",
        "priceLists.update",
        "products.create",
        "products.update",
        "products.delete",
        "products.publish",
        "products.archive",
        "skus.create",
        "skus.update",
        "skus.delete",
        "media.create",
        "media.update",
        "media.delete",
    ];
    let reads = vec![
        "categories.management.list",
        "attributes.management.list",
        "categoryAttributes.list",
        "priceLists.list",
        "products.management.list",
        "products.management.retrieve",
        "skus.list",
        "media.list",
    ];
    let ports = vec![CATALOG_REPOSITORY_PORT, IDEMPOTENCY_REPOSITORY_PORT];
    assert(token_texts(writes@) =~= catalog_write_tokens());
    assert(token_texts(reads@) =~= catalog_read_tokens());
    assert(token_texts(ports@) =~= seq![CATALOG_REPOSITORY_PORT@, IDEMPOTENCY_REPOSITORY_PORT@]);
    let c = CommerceServiceContract::new("catalog", "commerce.catalog", writes, reads, ports, true);
    proof {
        lemma_catalog_tokens_distinct();
        reveal_strlit("catalog");
        reveal_strlit("commerce.catalog");
        lemma_not_blank("catalog"@);
        lemma_not_blank("commerce.catalog"@);
    }
    c
}


/// A text whose first and last characters are not white space is not blank.
proof fn lemma_not_blank(s: Seq<char>)
    requires
        s.len() > 0,
        !is_white_space(s[0]),
        !is_white_space(s.last()),
    ensures
        !is_blank(s),
{
    assert(trim_start(s) == s);
    assert(trim_end(s) == s);
}

/// The catalog capability tokens are non-blank and pairwise distinct.
proof fn lemma_catalog_tokens_distinct()
    ensures
        forall|i: int|
            0 <= i < (catalog_write_tokens() + catalog_read_tokens()).len() ==> !is_blank(
                #[trigger] (catalog_write_tokens() + catalog_read_tokens())[i],
            ),
        forall|i: int, j: int|
            0 <= i < j < (catalog_write_tokens() + catalog_read_tokens()).len() ==> #[trigger] (
            catalog_write_tokens() + catalog_read_tokens())[i] != #[trigger] (catalog_write_tokens()
                + catalog_read_tokens())[j],
{
    let all = catalog_write_tokens() + catalog_read_tokens();
    reveal_strlit("categories.create");
    reveal_strlit("categories.update");
    reveal_strlit("categories.delete");
    reveal_strlit("attributes.create");
    reveal_strlit("categoryAttributes.create");
    reveal_strlit("categoryAttributes.update");
    reveal_strlit("categoryAttributes.delete");
    reveal_strlit("priceLists.create");
    reveal_strlit("priceLists.update");
    reveal_strlit("products.create");
    reveal_strlit("products.update");
    reveal_strlit("products.delete");
    reveal_strlit("products.publish");
    reveal_strlit("products.archive");
    reveal_strlit("skus.create");
    reveal_strlit("skus.update");
    reveal_strlit("skus.delete");
    reveal_strlit("media.create");
    reveal_strlit("media.update");
    reveal_strlit("media.delete");
    reveal_strlit("categories.management.list");
    reveal_strlit("attributes.management.list");
    reveal_strlit("categoryAttributes.list");
    reveal_strlit("priceLists.list");
    reveal_strlit("products.management.list");
    reveal_strlit("products.management.retrieve");
    reveal_strlit("skus.list");
    reveal_strlit("media.list");
    assert(all[0] == "categories.create"@);
    lemma_not_blank("categories.create"@);
    assert(all[1] == "categories.update"@);
    lemma_not_blank("categories.update"@);
    assert(all[2] == "categories.delete"@);
    lemma_not_blank("categories.delete"@);
    assert(all[3] == "attributes.create"@);
    lemma_not_blank("attributes.create"@);
    assert(all[4] == "categoryAttributes.create"@);
    lemma_not_blank("categoryAttributes.create"@);
    assert(all[5] == "categoryAttributes.update"@);
    lemma_not_blank("categoryAttributes.update"@);
    assert(all[6] == "categoryAttributes.delete"@);
    lemma_not_blank("categoryAttributes.delete"@);
    assert(all[7] == "priceLists.create"@);
    lemma_not_blank("priceLists.create"@);
    assert(all[8] == "priceLists.update"@);
    lemma_not_blank("priceLists.update"@);
    assert(all[9] == "products.create"@);
    lemma_not_blank("products.create"@);
    assert(all[10] == "products.update"@);
    lemma_not_blank("products.update"@);
    assert(all[11] == "products.delete"@);
    lemma_not_blank("products.delete"@);
    assert(all[12] == "products.publish"@);
    lemma_not_blank("products.publish"@);
    assert(all[13] == "products.archive"@);
    lemma_not_blank("products.archive"@);
    assert(all[14] == "skus.create"@);
    lemma_not_blank("skus.create"@);
    assert(all[15] == "skus.update"@);
    lemma_not_blank("skus.update"@);
    assert(all[16] == "skus.delete"@);
    lemma_not_blank("skus.delete"@);
    assert(all[17] == "media.create"@);
    lemma_not_blank("media.create"@);
    assert(all[18] == "media.update"@);
    lemma_not_blank("media.update"@);
    assert(all[19] == "media.delete"@);
    lemma_not_blank("media.delete"@);
    assert(all[20] == "categories.management.list"@);
    lemma_not_blank("categories.management.list"@);
    assert(all[21] == "attributes.management.list"@);
    lemma_not_blank("attributes.management.list"@);
    assert(all[22] == "categoryAttributes.list"@);
    lemma_not_blank("categoryAttributes.list"@);
    assert(all[23] == "priceLists.list"@);
    lemma_not_blank("priceLists.list"@);
    assert(all[24] == "products.management.list"@);
    lemma_not_blank("products.management.list"@);
    assert(all[25] == "products.management.retrieve"@);
    lemma_not_blank("products.management.retrieve"@);
    assert(all[26] == "skus.list"@);
    lemma_not_blank("skus.list"@);
    assert(all[27] == "media.list"@);
    lemma_not_blank("media.list"@);
    assert forall|i: int, j: int| 0 <= i < j < all.len() implies all[i] != all[j] by {
        if i == 0 && j == 1 {
            assert("categories.create"@[11] != "categories.update"@[11]);
        }
        if i == 0 && j == 2 {
            assert("categories.create"@[11] != "categories.delete"@[11]);
        }
        if i == 0 && j == 3 {
            assert("categories.create"@[0] != "attributes.create"@[0]);
        }
        if i == 0 && j == 4 {
            assert("categories.create"@.len() != "categoryAttributes.create"@.len());
        }
        if i == 0 && j == 5 {
            assert("categories.create"@.len() != "categoryAttributes.update"@.len());
        }
        if i == 0 && j == 6 {
            assert("categories.create"@.len() != "categoryAttributes.delete"@.len());
        }
        if i == 0 && j == 7 {
            assert("categories.create"@[0] != "priceLists.create"@[0]);
        }
        if i == 0 && j == 8 {
            assert("categories.create"@[0] != "priceLists.update"@[0]);
        }
        if i == 0 && j == 9 {
            assert("categories.create"@.len() != "products.create"@.len());
        }
        if i == 0 && j == 10 {
            assert("categories.create"@.len() != "products.update"@.len());
        }
        if i == 0 && j == 11 {
            assert("categories.create"@.len() != "products.delete"@.len());
        }
        if i == 0 && j == 12 {
            assert("categories.create"@.len() != "products.publish"@.len());
        }
        if i == 0 && j == 13 {
            assert("categories.create"@.len() != "products.archive"@.len());
        }
        if i == 0 && j == 14 {
            assert("categories.create"@.len() != "skus.create"@.len());
        }
        if i == 0 && j == 15 {
            assert("categories.create"@.len() != "skus.update"@.len());
        }
        if i == 0 && j == 16 {
            assert("categories.create"@.len() != "skus.delete"@.len());
        }
        if i == 0 && j == 17 {
            assert("categories.create"@.len() != "media.create"@.len());
        }
        if i == 0 && j == 18 {
            assert("categories.create"@.len() != "media.update"@.len());
        }
        if i == 0 && j == 19 {
            assert("categories.create"@.len() != "media.delete"@.len());
        }
        if i == 0 && j == 20 {
            assert("categories.create"@.len() != "categories.management.list"@.len());
        }
        if i == 0 && j == 21 {
            assert("categories.create"@.len() != "attributes.management.list"@.len());
        }
        if i == 0 && j == 22 {
            assert("categories.create"@.len() != "categoryAttributes.list"@.len());
        }
        if i == 0 && j == 23 {
            assert("categories.create"@.len() != "priceLists.list"@.len());
        }
        if i == 0 && j == 24 {
            assert("categories.create"@.len() != "products.management.list"@.len());
        }
        if i == 0 && j == 25 {
            assert("categories.create"@.len() != "products.management.retrieve"@.len());
        }
        if i == 0 && j == 26 {
            assert("categories.create"@.len() != "skus.list"@.len());
        }
        if i == 0 && j == 27 {
            assert("categories.create"@.len() != "media.list"@.len());
        }
        if i == 1 && j == 2 {
            assert("categories.update"@[11] != "categories.delete"@[11]);
        }
        if i == 1 && j == 3 {
            assert("categories.update"@[0] != "attributes.create"@[0]);
        }
        if i == 1 && j == 4 {
            assert("categories.update"@.len() != "categoryAttributes.create"@.len());
        }
        if i == 1 && j == 5 {
            assert("categories.update"@.len() != "categoryAttributes.update"@.len());
        }
        if i == 1 && j == 6 {
            assert("categories.update"@.len() != "categoryAttributes.delete"@.len());
        }
        if i == 1 && j == 7 {
            assert("categories.update"@[0] != "priceLists.create"@[0]);
        }
        if i == 1 && j == 8 {
            assert("categories.update"@[0] != "priceLists.update"@[0]);
        }
        if i == 1 && j == 9 {
            assert("categories.update"@.len() != "products.create"@.len());
        }
        if i == 1 && j == 10 {
            assert("categories.update"@.len() != "products.update"@.len());
        }
        if i == 1 && j == 11 {
            assert("categories.update"@.len() != "products.delete"@.len());
        }
        if i == 1 && j == 12 {
            assert("categories.update"@.len() != "products.publish"@.len());
        }
        if i == 1 && j == 13 {
            assert("categories.update"@.len() != "products.archive"@.len());
        }
        if i == 1 && j == 14 {
            assert("categories.update"@.len() != "skus.create"@.len());
        }
        if i == 1 && j == 15 {
            assert("categories.update"@.len() != "skus.update"@.len());
        }
        if i == 1 && j == 16 {
            assert("categories.update"@.len() != "skus.delete"@.len());
        }
        if i == 1 && j == 17 {
            assert("categories.update"@.len() != "media.create"@.len());
        }
        if i == 1 && j == 18 {
            assert("categories.update"@.len() != "media.update"@.len());
        }
        if i == 1 && j == 19 {
            assert("categories.update"@.len() != "media.delete"@.len());
        }
        if i == 1 && j == 20 {
            assert("categories.update"@.len() != "categories.management.list"@.len());
        }
        if i == 1 && j == 21 {
            assert("categories.update"@.len() != "attributes.management.list"@.len());
        }
        if i == 1 && j == 22 {
            assert("categories.update"@.len() != "categoryAttributes.list"@.len());
        }
        if i == 1 && j == 23 {
            assert("categories.update"@.len() != "priceLists.list"@.len());
        }
        if i == 1 && j == 24 {
            assert("categories.update"@.len() != "products.management.list"@.len());
        }
        if i == 1 && j == 25 {
            assert("categories.update"@.len() != "products.management.retrieve"@.len());
        }
        if i == 1 && j == 26 {
            assert("categories.update"@.len() != "skus.list"@.len());
        }
        if i == 1 && j == 27 {
            assert("categories.update"@.len() != "media.list"@.len());
        }
        if i == 2 && j == 3 {
            assert("categories.delete"@[0] != "attributes.create"@[0]);
        }
        if i == 2 && j == 4 {
            assert("categories.delete"@.len() != "categoryAttributes.create"@.len());
        }
        if i == 2 && j == 5 {
            assert("categories.delete"@.len() != "categoryAttributes.update"@.len());
        }
        if i == 2 && j == 6 {
            assert("categories.delete"@.len() != "categoryAttributes.delete"@.len());
        }
        if i == 2 && j == 7 {
            assert("categories.delete"@[0] != "priceLists.create"@[0]);
        }
        if i == 2 && j == 8 {
            assert("categories.delete"@[0] != "priceLists.update"@[0]);
        }
        if i == 2 && j == 9 {
            assert("categories.delete"@.len() != "products.create"@.len());
        }
        if i == 2 && j == 10 {
            assert("categories.delete"@.len() != "products.update"@.len());
        }
        if i == 2 && j == 11 {
            assert("categories.delete"@.len() != "products.delete"@.len());
        }
        if i == 2 && j == 12 {
            assert("categories.delete"@.len() != "products.publish"@.len());
        }
        if i == 2 && j == 13 {
            assert("categories.delete"@.len() != "products.archive"@.len());
        }
        if i == 2 && j == 14 {
            assert("categories.delete"@.len() != "skus.create"@.len());
        }
        if i == 2 && j == 15 {
            assert("categories.delete"@.len() != "skus.update"@.len());
        }
        if i == 2 && j == 16 {
            assert("categories.delete"@.len() != "skus.delete"@.len());
        }
        if i == 2 && j == 17 {
            assert("categories.delete"@.len() != "media.create"@.len());
        }
        if i == 2 && j == 18 {
            assert("categories.delete"@.len() != "media.update"@.len());
        }
        if i == 2 && j == 19 {
            assert("categories.delete"@.len() != "media.delete"@.len());
        }
        if i == 2 && j == 20 {
            assert("categories.delete"@.len() != "categories.management.list"@.len());
        }
        if i == 2 && j == 21 {
            assert("categories.delete"@.len() != "attributes.management.list"@.len());
        }
        if i == 2 && j == 22 {
            assert("categories.delete"@.len() != "categoryAttributes.list"@.len());
        }
        if i == 2 && j == 23 {
            assert("categories.delete"@.len() != "priceLists.list"@.len());
        }
        if i == 2 && j == 24 {
            assert("categories.delete"@.len() != "products.management.list"@.len());
        }
        if i == 2 && j == 25 {
            assert("categories.delete"@.len() != "products.management.retrieve"@.len());
        }
        if i == 2 && j == 26 {
            assert("categories.delete"@.len() != "skus.list"@.len());
        }
        if i == 2 && j == 27 {
            assert("categories.delete"@.len() != "media.list"@.len());
        }
        if i == 3 && j == 4 {
            assert("attributes.create"@.len() != "categoryAttributes.create"@.len());
        }
        if i == 3 && j == 5 {
            assert("attributes.create"@.len() != "categoryAttributes.update"@.len());
        }
        if i == 3 && j == 6 {
            assert("attributes.create"@.len() != "categoryAttributes.delete"@.len());
        }
        if i == 3 && j == 7 {
            assert("attributes.create"@[0] != "priceLists.create"@[0]);
        }
        if i == 3 && j == 8 {
            assert("attributes.create"@[0] != "priceLists.update"@[0]);
        }
        if i == 3 && j == 9 {
            assert("attributes.create"@.len() != "products.create"@.len());
        }
        if i == 3 && j == 10 {
            assert("attributes.create"@.len() != "products.update"@.len());
        }
        if i == 3 && j == 11 {
            assert("attributes.create"@.len() != "products.delete"@.len());
        }
        if i == 3 && j == 12 {
            assert("attributes.create"@.len() != "products.publish"@.len());
        }
        if i == 3 && j == 13 {
            assert("attributes.create"@.len() != "products.archive"@.len());
        }
        if i == 3 && j == 14 {
            assert("attributes.create"@.len() != "skus.create"@.len());
        }
        if i == 3 && j == 15 {
            assert("attributes.create"@.len() != "skus.update"@.len());
        }
        if i == 3 && j == 16 {
            assert("attributes.create"@.len() != "skus.delete"@.len());
        }
        if i == 3 && j == 17 {
            assert("attributes.create"@.len() != "media.create"@.len());
        }
        if i == 3 && j == 18 {
            assert("attributes.create"@.len() != "media.update"@.len());
        }
        if i == 3 && j == 19 {
            assert("attributes.create"@.len() != "media.delete"@.len());
        }
        if i == 3 && j == 20 {
            assert("attributes.create"@.len() != "categories.management.list"@.len());
        }
        if i == 3 && j == 21 {
            assert("attributes.create"@.len() != "attributes.management.list"@.len());
        }
        if i == 3 && j == 22 {
            assert("attributes.create"@.len() != "categoryAttributes.list"@.len());
        }
        if i == 3 && j == 23 {
            assert("attributes.create"@.len() != "priceLists.list"@.len());
        }
        if i == 3 && j == 24 {
            assert("attributes.create"@.len() != "products.management.list"@.len());
        }
        if i == 3 && j == 25 {
            assert("attributes.create"@.len() != "products.management.retrieve"@.len());
        }
        if i == 3 && j == 26 {
            assert("attributes.create"@.len() != "skus.list"@.len());
        }
        if i == 3 && j == 27 {
            assert("attributes.create"@.len() != "media.list"@.len());
        }
        if i == 4 && j == 5 {
            assert("categoryAttributes.create"@[19] != "categoryAttributes.update"@[19]);
        }
        if i == 4 && j == 6 {
            assert("categoryAttributes.create"@[19] != "categoryAttributes.delete"@[19]);
        }
        if i == 4 && j == 7 {
            assert("categoryAttributes.create"@.len() != "priceLists.create"@.len());
        }
        if i == 4 && j == 8 {
            assert("categoryAttributes.create"@.len() != "priceLists.update"@.len());
        }
        if i == 4 && j == 9 {
            assert("categoryAttributes.create"@.len() != "products.create"@.len());
        }
        if i == 4 && j == 10 {
            assert("categoryAttributes.create"@.len() != "products.update"@.len());
        }
        if i == 4 && j == 11 {
            assert("categoryAttributes.create"@.len() != "products.delete"@.len());
        }
        if i == 4 && j == 12 {
            assert("categoryAttributes.create"@.len() != "products.publish"@.len());
        }
        if i == 4 && j == 13 {
            assert("categoryAttributes.create"@.len() != "products.archive"@.len());
        }
        if i == 4 && j == 14 {
            assert("categoryAttributes.create"@.len() != "skus.create"@.len());
        }
        if i == 4 && j == 15 {
            assert("categoryAttributes.create"@.len() != "skus.update"@.len());
        }
        if i == 4 && j == 16 {
            assert("categoryAttributes.create"@.len() != "skus.delete"@.len());
        }
        if i == 4 && j == 17 {
            assert("categoryAttributes.create"@.len() != "media.create"@.len());
        }
        if i == 4 && j == 18 {
            assert("categoryAttributes.create"@.len() != "media.update"@.len());
        }
        if i == 4 && j == 19 {
            assert("categoryAttributes.create"@.len() != "media.delete"@.len());
        }
        if i == 4 && j == 20 {
            assert("categoryAttributes.create"@.len() != "categories.management.list"@.len());
        }
        if i == 4 && j == 21 {
            assert("categoryAttributes.create"@.len() != "attributes.management.list"@.len());
        }
        if i == 4 && j == 22 {
            assert("categoryAttributes.create"@.len() != "categoryAttributes.list"@.len());
        }
        if i == 4 && j == 23 {
            assert("categoryAttributes.create"@.len() != "priceLists.list"@.len());
        }
        if i == 4 && j == 24 {
            assert("categoryAttributes.create"@.len() != "products.management.list"@.len());
        }
        if i == 4 && j == 25 {
            assert("categoryAttributes.create"@.len() != "products.management.retrieve"@.len());
        }
        if i == 4 && j == 26 {
            assert("categoryAttributes.create"@.len() != "skus.list"@.len());
        }
        if i == 4 && j == 27 {
            assert("categoryAttributes.create"@.len() != "media.list"@.len());
        }
        if i == 5 && j == 6 {
            assert("categoryAttributes.update"@[19] != "categoryAttributes.delete"@[19]);
        }
        if i == 5 && j == 7 {
            assert("categoryAttributes.update"@.len() != "priceLists.create"@.len());
        }
        if i == 5 && j == 8 {
            assert("categoryAttributes.update"@.len() != "priceLists.update"@.len());
        }
        if i == 5 && j == 9 {
            assert("categoryAttributes.update"@.len() != "products.create"@.len());
        }
        if i == 5 && j == 10 {
            assert("categoryAttributes.update"@.len() != "products.update"@.len());
        }
        if i == 5 && j == 11 {
            assert("categoryAttributes.update"@.len() != "products.delete"@.len());
        }
        if i == 5 && j == 12 {
            assert("categoryAttributes.update"@.len() != "products.publish"@.len());
        }
        if i == 5 && j == 13 {
            assert("categoryAttributes.update"@.len() != "products.archive"@.len());
        }
        if i == 5 && j == 14 {
            assert("categoryAttributes.update"@.len() != "skus.create"@.len());
        }
        if i == 5 && j == 15 {
            assert("categoryAttributes.update"@.len() != "skus.update"@.len());
        }
        if i == 5 && j == 16 {
            assert("categoryAttributes.update"@.len() != "skus.delete"@.len());
        }
        if i == 5 && j == 17 {
            assert("categoryAttributes.update"@.len() != "media.create"@.len());
        }
        if i == 5 && j == 18 {
            assert("categoryAttributes.update"@.len() != "media.update"@.len());
        }
        if i == 5 && j == 19 {
            assert("categoryAttributes.update"@.len() != "media.delete"@.len());
        }
        if i == 5 && j == 20 {
            assert("categoryAttributes.update"@.len() != "categories.management.list"@.len());
        }
        if i == 5 && j == 21 {
            assert("categoryAttributes.update"@.len() != "attributes.management.list"@.len());
        }
        if i == 5 && j == 22 {
            assert("categoryAttributes.update"@.len() != "categoryAttributes.list"@.len());
        }
        if i == 5 && j == 23 {
            assert("categoryAttributes.update"@.len() != "priceLists.list"@.len());
        }
        if i == 5 && j == 24 {
            assert("categoryAttributes.update"@.len() != "products.management.list"@.len());
        }
        if i == 5 && j == 25 {
            assert("categoryAttributes.update"@.len() != "products.management.retrieve"@.len());
        }
        if i == 5 && j == 26 {
            assert("categoryAttributes.update"@.len() != "skus.list"@.len());
        }
        if i == 5 && j == 27 {
            assert("categoryAttributes.update"@.len() != "media.list"@.len());
        }
        if i == 6 && j == 7 {
            assert("categoryAttributes.delete"@.len() != "priceLists.create"@.len());
        }
        if i == 6 && j == 8 {
            assert("categoryAttributes.delete"@.len() != "priceLists.update"@.len());
        }
        if i == 6 && j == 9 {
            assert("categoryAttributes.delete"@.len() != "products.create"@.len());
        }
        if i == 6 && j == 10 {
            assert("categoryAttributes.delete"@.len() != "products.update"@.len());
        }
        if i == 6 && j == 11 {
            assert("categoryAttributes.delete"@.len() != "products.delete"@.len());
        }
        if i == 6 && j == 12 {
            assert("categoryAttributes.delete"@.len() != "products.publish"@.len());
        }
        if i == 6 && j == 13 {
            assert("categoryAttributes.delete"@.len() != "products.archive"@.len());
        }
        if i == 6 && j == 14 {
            assert("categoryAttributes.delete"@.len() != "skus.create"@.len());
        }
        if i == 6 && j == 15 {
            assert("categoryAttributes.delete"@.len() != "skus.update"@.len());
        }
        if i == 6 && j == 16 {
            assert("categoryAttributes.delete"@.len() != "skus.delete"@.len());
        }
        if i == 6 && j == 17 {
            assert("categoryAttributes.delete"@.len() != "media.create"@.len());
        }
        if i == 6 && j == 18 {
            assert("categoryAttributes.delete"@.len() != "media.update"@.len());
        }
        if i == 6 && j == 19 {
            assert("categoryAttributes.delete"@.len() != "media.delete"@.len());
        }
        if i == 6 && j == 20 {
            assert("categoryAttributes.delete"@.len() != "categories.management.list"@.len());
        }
        if i == 6 && j == 21 {
            assert("categoryAttributes.delete"@.len() != "attributes.management.list"@.len());
        }
        if i == 6 && j == 22 {
            assert("categoryAttributes.delete"@.len() != "categoryAttributes.list"@.len());
        }
        if i == 6 && j == 23 {
            assert("categoryAttributes.delete"@.len() != "priceLists.list"@.len());
        }
        if i == 6 && j == 24 {
            assert("categoryAttributes.delete"@.len() != "products.management.list"@.len());
        }
        if i == 6 && j == 25 {
            assert("categoryAttributes.delete"@.len() != "products.management.retrieve"@.len());
        }
        if i == 6 && j == 26 {
            assert("categoryAttributes.delete"@.len() != "skus.list"@.len());
        }
        if i == 6 && j == 27 {
            assert("categoryAttributes.delete"@.len() != "media.list"@.len());
        }
        if i == 7 && j == 8 {
            assert("priceLists.create"@[11] != "priceLists.update"@[11]);
        }
        if i == 7 && j == 9 {
            assert("priceLists.create"@.len() != "products.create"@.len());
        }
        if i == 7 && j == 10 {
            assert("priceLists.create"@.len() != "products.update"@.len());
        }
        if i == 7 && j == 11 {
            assert("priceLists.create"@.len() != "products.delete"@.len());
        }
        if i == 7 && j == 12 {
            assert("priceLists.create"@.len() != "products.publish"@.len());
        }
        if i == 7 && j == 13 {
            assert("priceLists.create"@.len() != "products.archive"@.len());
        }
        if i == 7 && j == 14 {
            assert("priceLists.create"@.len() != "skus.create"@.len());
        }
        if i == 7 && j == 15 {
            assert("priceLists.create"@.len() != "skus.update"@.len());
        }
        if i == 7 && j == 16 {
            assert("priceLists.create"@.len() != "skus.delete"@.len());
        }
        if i == 7 && j == 17 {
            assert("priceLists.create"@.len() != "media.create"@.len());
        }
        if i == 7 && j == 18 {
            assert("priceLists.create"@.len() != "media.update"@.len());
        }
        if i == 7 && j == 19 {
            assert("priceLists.create"@.len() != "media.delete"@.len());
        }
        if i == 7 && j == 20 {
            assert("priceLists.create"@.len() != "categories.management.list"@.len());
        }
        if i == 7 && j == 21 {
            assert("priceLists.create"@.len() != "attributes.management.list"@.len());
        }
        if i == 7 && j == 22 {
            assert("priceLists.create"@.len() != "categoryAttributes.list"@.len());
        }
        if i == 7 && j == 23 {
            assert("priceLists.create"@.len() != "priceLists.list"@.len());
        }
        if i == 7 && j == 24 {
            assert("priceLists.create"@.len() != "products.management.list"@.len());
        }
        if i == 7 && j == 25 {
            assert("priceLists.create"@.len() != "products.management.retrieve"@.len());
        }
        if i == 7 && j == 26 {
            assert("priceLists.create"@.len() != "skus.list"@.len());
        }
        if i == 7 && j == 27 {
            assert("priceLists.create"@.len() != "media.list"@.len());
        }
        if i == 8 && j == 9 {
            assert("priceLists.update"@.len() != "products.create"@.len());
        }
        if i == 8 && j == 10 {
            assert("priceLists.update"@.len() != "products.update"@.len());
        }
        if i == 8 && j == 11 {
            assert("priceLists.update"@.len() != "products.delete"@.len());
        }
        if i == 8 && j == 12 {
            assert("priceLists.update"@.len() != "products.publish"@.len());
        }
        if i == 8 && j == 13 {
            assert("priceLists.update"@.len() != "products.archive"@.len());
        }
        if i == 8 && j == 14 {
            assert("priceLists.update"@.len() != "skus.create"@.len());
        }
        if i == 8 && j == 15 {
            assert("priceLists.update"@.len() != "skus.update"@.len());
        }
        if i == 8 && j == 16 {
            assert("priceLists.update"@.len() != "skus.delete"@.len());
        }
        if i == 8 && j == 17 {
            assert("priceLists.update"@.len() != "media.create"@.len());
        }
        if i == 8 && j == 18 {
            assert("priceLists.update"@.len() != "media.update"@.len());
        }
        if i == 8 && j == 19 {
            assert("priceLists.update"@.len() != "media.delete"@.len());
        }
        if i == 8 && j == 20 {
            assert("priceLists.update"@.len() != "categories.management.list"@.len());
        }
        if i == 8 && j == 21 {
            assert("priceLists.update"@.len() != "attributes.management.list"@.len());
        }
        if i == 8 && j == 22 {
            assert("priceLists.update"@.len() != "categoryAttributes.list"@.len());
        }
        if i == 8 && j == 23 {
            assert("priceLists.update"@.len() != "priceLists.list"@.len());
        }
        if i == 8 && j == 24 {
            assert("priceLists.update"@.len() != "products.management.list"@.len());
        }
        if i == 8 && j == 25 {
            assert("priceLists.update"@.len() != "products.management.retrieve"@.len());
        }
        if i == 8 && j == 26 {
            assert("priceLists.update"@.len() != "skus.list"@.len());
        }
        if i == 8 && j == 27 {
            assert("priceLists.update"@.len() != "media.list"@.len());
        }
        if i == 9 && j == 10 {
            assert("products.create"@[9] != "products.update"@[9]);
        }
        if i == 9 && j == 11 {
            assert("products.create"@[9] != "products.delete"@[9]);
        }
        if i == 9 && j == 12 {
            assert("products.create"@.len() != "products.publish"@.len());
        }
        if i == 9 && j == 13 {
            assert("products.create"@.len() != "products.archive"@.len());
        }
        if i == 9 && j == 14 {
            assert("products.create"@.len() != "skus.create"@.len());
        }
        if i == 9 && j == 15 {
            assert("products.create"@.len() != "skus.update"@.len());
        }
        if i == 9 && j == 16 {
            assert("products.create"@.len() != "skus.delete"@.len());
        }
        if i == 9 && j == 17 {
            assert("products.create"@.len() != "media.create"@.len());
        }
        if i == 9 && j == 18 {
            assert("products.create"@.len() != "media.update"@.len());
        }
        if i == 9 && j == 19 {
            assert("products.create"@.len() != "media.delete"@.len());
        }
        if i == 9 && j == 20 {
            assert("products.create"@.len() != "categories.management.list"@.len());
        }
        if i == 9 && j == 21 {
            assert("products.create"@.len() != "attributes.management.list"@.len());
        }
        if i == 9 && j == 22 {
            assert("products.create"@.len() != "categoryAttributes.list"@.len());
        }
        if i == 9 && j == 23 {
            assert("products.create"@[2] != "priceLists.list"@[2]);
        }
        if i == 9 && j == 24 {
            assert("products.create"@.len() != "products.management.list"@.len());
        }
        if i == 9 && j == 25 {
            assert("products.create"@.len() != "products.management.retrieve"@.len());
        }
        if i == 9 && j == 26 {
            assert("products.create"@.len() != "skus.list"@.len());
        }
        if i == 9 && j == 27 {
            assert("products.create"@.len() != "media.list"@.len());
        }
        if i == 10 && j == 11 {
            assert("products.update"@[9] != "products.delete"@[9]);
        }
        if i == 10 && j == 12 {
            assert("products.update"@.len() != "products.publish"@.len());
        }
        if i == 10 && j == 13 {
            assert("products.update"@.len() != "products.archive"@.len());
        }
        if i == 10 && j == 14 {
            assert("products.update"@.len() != "skus.create"@.len());
        }
        if i == 10 && j == 15 {
            assert("products.update"@.len() != "skus.update"@.len());
        }
        if i == 10 && j == 16 {
            assert("products.update"@.len() != "skus.delete"@.len());
        }
        if i == 10 && j == 17 {
            assert("products.update"@.len() != "media.create"@.len());
        }
        if i == 10 && j == 18 {
            assert("products.update"@.len() != "media.update"@.len());
        }
        if i == 10 && j == 19 {
            assert("products.update"@.len() != "media.delete"@.len());
        }
        if i == 10 && j == 20 {
            assert("products.update"@.len() != "categories.management.list"@.len());
        }
        if i == 10 && j == 21 {
            assert("products.update"@.len() != "attributes.management.list"@.len());
        }
        if i == 10 && j == 22 {
            assert("products.update"@.len() != "categoryAttributes.list"@.len());
        }
        if i == 10 && j == 23 {
            assert("products.update"@[2] != "priceLists.list"@[2]);
        }
        if i == 10 && j == 24 {
            assert("products.update"@.len() != "products.management.list"@.len());
        }
        if i == 10 && j == 25 {
            assert("products.update"@.len() != "products.management.retrieve"@.len());
        }
        if i == 10 && j == 26 {
            assert("products.update"@.len() != "skus.list"@.len());
        }
        if i == 10 && j == 27 {
            assert("products.update"@.len() != "media.list"@.len());
        }
        if i == 11 && j == 12 {
            assert("products.delete"@.len() != "products.publish"@.len());
        }
        if i == 11 && j == 13 {
            assert("products.delete"@.len() != "products.archive"@.len());
        }
        if i == 11 && j == 14 {
            assert("products.delete"@.len() != "skus.create"@.len());
        }
        if i == 11 && j == 15 {
            assert("products.delete"@.len() != "skus.update"@.len());
        }
        if i == 11 && j == 16 {
            assert("products.delete"@.len() != "skus.delete"@.len());
        }
        if i == 11 && j == 17 {
            assert("products.delete"@.len() != "media.create"@.len());
        }
        if i == 11 && j == 18 {
            assert("products.delete"@.len() != "media.update"@.len());
        }
        if i == 11 && j == 19 {
            assert("products.delete"@.len() != "media.delete"@.len());
        }
        if i == 11 && j == 20 {
            assert("products.delete"@.len() != "categories.management.list"@.len());
        }
        if i == 11 && j == 21 {
            assert("products.delete"@.len() != "attributes.management.list"@.len());
        }
        if i == 11 && j == 22 {
            assert("products.delete"@.len() != "categoryAttributes.list"@.len());
        }
        if i == 11 && j == 23 {
            assert("products.delete"@[2] != "priceLists.list"@[2]);
        }
        if i == 11 && j == 24 {
            assert("products.delete"@.len() != "products.management.list"@.len());
        }
        if i == 11 && j == 25 {
            assert("products.delete"@.len() != "products.management.retrieve"@.len());
        }
        if i == 11 && j == 26 {
            assert("products.delete"@.len() != "skus.list"@.len());
        }
        if i == 11 && j == 27 {
            assert("products.delete"@.len() != "media.list"@.len());
        }
        if i == 12 && j == 13 {
            assert("products.publish"@[9] != "products.archive"@[9]);
        }
        if i == 12 && j == 14 {
            assert("products.publish"@.len() != "skus.create"@.len());
        }
        if i == 12 && j == 15 {
            assert("products.publish"@.len() != "skus.update"@.len());
        }
        if i == 12 && j == 16 {
            assert("products.publish"@.len() != "skus.delete"@.len());
        }
        if i == 12 && j == 17 {
            assert("products.publish"@.len() != "media.create"@.len());
        }
        if i == 12 && j == 18 {
            assert("products.publish"@.len() != "media.update"@.len());
        }
        if i == 12 && j == 19 {
            assert("products.publish"@.len() != "media.delete"@.len());
        }
        if i == 12 && j == 20 {
            assert("products.publish"@.len() != "categories.management.list"@.len());
        }
        if i == 12 && j == 21 {
            assert("products.publish"@.len() != "attributes.management.list"@.len());
        }
        if i == 12 && j == 22 {
            assert("products.publish"@.len() != "categoryAttributes.list"@.len());
        }
        if i == 12 && j == 23 {
            assert("products.publish"@.len() != "priceLists.list"@.len());
        }
        if i == 12 && j == 24 {
            assert("products.publish"@.len() != "products.management.list"@.len());
        }
        if i == 12 && j == 25 {
            assert("products.publish"@.len() != "products.management.retrieve"@.len());
        }
        if i == 12 && j == 26 {
            assert("products.publish"@.len() != "skus.list"@.len());
        }
        if i == 12 && j == 27 {
            assert("products.publish"@.len() != "media.list"@.len());
        }
        if i == 13 && j == 14 {
            assert("products.archive"@.len() != "skus.create"@.len());
        }
        if i == 13 && j == 15 {
            assert("products.archive"@.len() != "skus.update"@.len());
        }
        if i == 13 && j == 16 {
            assert("products.archive"@.len() != "skus.delete"@.len());
        }
        if i == 13 && j == 17 {
            assert("products.archive"@.len() != "media.create"@.len());
        }
        if i == 13 && j == 18 {
            assert("products.archive"@.len() != "media.update"@.len());
        }
        if i == 13 && j == 19 {
            assert("products.archive"@.len() != "media.delete"@.len());
        }
        if i == 13 && j == 20 {
            assert("products.archive"@.len() != "categories.management.list"@.len());
        }
        if i == 13 && j == 21 {
            assert("products.archive"@.len() != "attributes.management.list"@.len());
        }
        if i == 13 && j == 22 {
            assert("products.archive"@.len() != "categoryAttributes.list"@.len());
        }
        if i == 13 && j == 23 {
            assert("products.archive"@.len() != "priceLists.list"@.len());
        }
        if i == 13 && j == 24 {
            assert("products.archive"@.len() != "products.management.list"@.len());
        }
        if i == 13 && j == 25 {
            assert("products.archive"@.len() != "products.management.retrieve"@.len());
        }
        if i == 13 && j == 26 {
            assert("products.archive"@.len() != "skus.list"@.len());
        }
        if i == 13 && j == 27 {
            assert("products.archive"@.len() != "media.list"@.len());
        }
        if i == 14 && j == 15 {
            assert("skus.create"@[5] != "skus.update"@[5]);
        }
        if i == 14 && j == 16 {
            assert("skus.create"@[5] != "skus.delete"@[5]);
        }
        if i == 14 && j == 17 {
            assert("skus.create"@.len() != "media.create"@.len());
        }
        if i == 14 && j == 18 {
            assert("skus.create"@.len() != "media.update"@.len());
        }
        if i == 14 && j == 19 {
            assert("skus.create"@.len() != "media.delete"@.len());
        }
        if i == 14 && j == 20 {
            assert("skus.create"@.len() != "categories.management.list"@.len());
        }
        if i == 14 && j == 21 {
            assert("skus.create"@.len() != "attributes.management.list"@.len());
        }
        if i == 14 && j == 22 {
            assert("skus.create"@.len() != "categoryAttributes.list"@.len());
        }
        if i == 14 && j == 23 {
            assert("skus.create"@.len() != "priceLists.list"@.len());
        }
        if i == 14 && j == 24 {
            assert("skus.create"@.len() != "products.management.list"@.len());
        }
        if i == 14 && j == 25 {
            assert("skus.create"@.len() != "products.management.retrieve"@.len());
        }
        if i == 14 && j == 26 {
            assert("skus.create"@.len() != "skus.list"@.len());
        }
        if i == 14 && j == 27 {
            assert("skus.create"@.len() != "media.list"@.len());
        }
        if i == 15 && j == 16 {
            assert("skus.update"@[5] != "skus.delete"@[5]);
        }
        if i == 15 && j == 17 {
            assert("skus.update"@.len() != "media.create"@.len());
        }
        if i == 15 && j == 18 {
            assert("skus.update"@.len() != "media.update"@.len());
        }
        if i == 15 && j == 19 {
            assert("skus.update"@.len() != "media.delete"@.len());
        }
        if i == 15 && j == 20 {
            assert("skus.update"@.len() != "categories.management.list"@.len());
        }
        if i == 15 && j == 21 {
            assert("skus.update"@.len() != "attributes.management.list"@.len());
        }
        if i == 15 && j == 22 {
            assert("skus.update"@.len() != "categoryAttributes.list"@.len());
        }
        if i == 15 && j == 23 {
            assert("skus.update"@.len() != "priceLists.list"@.len());
        }
        if i == 15 && j == 24 {
            assert("skus.update"@.len() != "products.management.list"@.len());
        }
        if i == 15 && j == 25 {
            assert("skus.update"@.len() != "products.management.retrieve"@.len());
        }
        if i == 15 && j == 26 {
            assert("skus.update"@.len() != "skus.list"@.len());
        }
        if i == 15 && j == 27 {
            assert("skus.update"@.len() != "media.list"@.len());
        }
        if i == 16 && j == 17 {
            assert("skus.delete"@.len() != "media.create"@.len());
        }
        if i == 16 && j == 18 {
            assert("skus.delete"@.len() != "media.update"@.len());
        }
        if i == 16 && j == 19 {
            assert("skus.delete"@.len() != "media.delete"@.len());
        }
        if i == 16 && j == 20 {
            assert("skus.delete"@.len() != "categories.management.list"@.len());
        }
        if i == 16 && j == 21 {
            assert("skus.delete"@.len() != "attributes.management.list"@.len());
        }
        if i == 16 && j == 22 {
            assert("skus.delete"@.len() != "categoryAttributes.list"@.len());
        }
        if i == 16 && j == 23 {
            assert("skus.delete"@.len() != "priceLists.list"@.len());
        }
        if i == 16 && j == 24 {
            assert("skus.delete"@.len() != "products.management.list"@.len());
        }
        if i == 16 && j == 25 {
            assert("skus.delete"@.len() != "products.management.retrieve"@.len());
        }
        if i == 16 && j == 26 {
            assert("skus.delete"@.len() != "skus.list"@.len());
        }
        if i == 16 && j == 27 {
            assert("skus.delete"@.len() != "media.list"@.len());
        }
        if i == 17 && j == 18 {
            assert("media.create"@[6] != "media.update"@[6]);
        }
        if i == 17 && j == 19 {
            assert("media.create"@[6] != "media.delete"@[6]);
        }
        if i == 17 && j == 20 {
            assert("media.create"@.len() != "categories.management.list"@.len());
        }
        if i == 17 && j == 21 {
            assert("media.create"@.len() != "attributes.management.list"@.len());
        }
        if i == 17 && j == 22 {
            assert("media.create"@.len() != "categoryAttributes.list"@.len());
        }
        if i == 17 && j == 23 {
            assert("media.create"@.len() != "priceLists.list"@.len());
        }
        if i == 17 && j == 24 {
            assert("media.create"@.len() != "products.management.list"@.len());
        }
        if i == 17 && j == 25 {
            assert("media.create"@.len() != "products.management.retrieve"@.len());
        }
        if i == 17 && j == 26 {
            assert("media.create"@.len() != "skus.list"@.len());
        }
        if i == 17 && j == 27 {
            assert("media.create"@.len() != "media.list"@.len());
        }
        if i == 18 && j == 19 {
            assert("media.update"@[6] != "media.delete"@[6]);
        }
        if i == 18 && j == 20 {
            assert("media.update"@.len() != "categories.management.list"@.len());
        }
        if i == 18 && j == 21 {
            assert("media.update"@.len() != "attributes.management.list"@.len());
        }
        if i == 18 && j == 22 {
            assert("media.update"@.len() != "categoryAttributes.list"@.len());
        }
        if i == 18 && j == 23 {
            assert("media.update"@.len() != "priceLists.list"@.len());
        }
        if i == 18 && j == 24 {
            assert("media.update"@.len() != "products.management.list"@.len());
        }
        if i == 18 && j == 25 {
            assert("media.update"@.len() != "products.management.retrieve"@.len());
        }
        if i == 18 && j == 26 {
            assert("media.update"@.len() != "skus.list"@.len());
        }
        if i == 18 && j == 27 {
            assert("media.update"@.len() != "media.list"@.len());
        }
        if i == 19 && j == 20 {
            assert("media.delete"@.len() != "categories.management.list"@.len());
        }
        if i == 19 && j == 21 {
            assert("media.delete"@.len() != "attributes.management.list"@.len());
        }
        if i == 19 && j == 22 {
            assert("media.delete"@.len() != "categoryAttributes.list"@.len());
        }
        if i == 19 && j == 23 {
            assert("media.delete"@.len() != "priceLists.list"@.len());
        }
        if i == 19 && j == 24 {
            assert("media.delete"@.len() != "products.management.list"@.len());
        }
        if i == 19 && j == 25 {
            assert("media.delete"@.len() != "products.management.retrieve"@.len());
        }
        if i == 19 && j == 26 {
            assert("media.delete"@.len() != "skus.list"@.len());
        }
        if i == 19 && j == 27 {
            assert("media.delete"@.len() != "media.list"@.len());
        }
        if i == 20 && j == 21 {
            assert("categories.management.list"@[0] != "attributes.management.list"@[0]);
        }
        if i == 20 && j == 22 {
            assert("categories.management.list"@.len() != "categoryAttributes.list"@.len());
        }
        if i == 20 && j == 23 {
            assert("categories.management.list"@.len() != "priceLists.list"@.len());
        }
        if i == 20 && j == 24 {
            assert("categories.management.list"@.len() != "products.management.list"@.len());
        }
        if i == 20 && j == 25 {
            assert("categories.management.list"@.len() != "products.management.retrieve"@.len());
        }
        if i == 20 && j == 26 {
            assert("categories.management.list"@.len() != "skus.list"@.len());
        }
        if i == 20 && j == 27 {
            assert("categories.management.list"@.len() != "media.list"@.len());
        }
        if i == 21 && j == 22 {
            assert("attributes.management.list"@.len() != "categoryAttributes.list"@.len());
        }
        if i == 21 && j == 23 {
            assert("attributes.management.list"@.len() != "priceLists.list"@.len());
        }
        if i == 21 && j == 24 {
            assert("attributes.management.list"@.len() != "products.management.list"@.len());
        }
        if i == 21 && j == 25 {
            assert("attributes.management.list"@.len() != "products.management.retrieve"@.len());
        }
        if i == 21 && j == 26 {
            assert("attributes.management.list"@.len() != "skus.list"@.len());
        }
        if i == 21 && j == 27 {
            assert("attributes.management.list"@.len() != "media.list"@.len());
        }
        if i == 22 && j == 23 {
            assert("categoryAttributes.list"@.len() != "priceLists.list"@.len());
        }
        if i == 22 && j == 24 {
            assert("categoryAttributes.list"@.len() != "products.management.list"@.len());
        }
        if i == 22 && j == 25 {
            assert("categoryAttributes.list"@.len() != "products.management.retrieve"@.len());
        }
        if i == 22 && j == 26 {
            assert("categoryAttributes.list"@.len() != "skus.list"@.len());
        }
        if i == 22 && j == 27 {
            assert("categoryAttributes.list"@.len() != "media.list"@.len());
        }
        if i == 23 && j == 24 {
            assert("priceLists.list"@.len() != "products.management.list"@.len());
        }
        if i == 23 && j == 25 {
            assert("priceLists.list"@.len() != "products.management.retrieve"@.len());
        }
        if i == 23 && j == 26 {
            assert("priceLists.list"@.len() != "skus.list"@.len());
        }
        if i == 23 && j == 27 {
            assert("priceLists.list"@.len() != "media.list"@.len());
        }
        if i == 24 && j == 25 {
            assert("products.management.list"@.len() != "products.management.retrieve"@.len());
        }
        if i == 24 && j == 26 {
            assert("products.management.list"@.len() != "skus.list"@.len());
        }
        if i == 24 && j == 27 {
            assert("products.management.list"@.len() != "media.list"@.len());
        }
        if i == 25 && j == 26 {
            assert("products.management.retrieve"@.len() != "skus.list"@.len());
        }
        if i == 25 && j == 27 {
            assert("products.management.retrieve"@.len() != "media.list"@.len());
        }
        if i == 26 && j == 27 {
            assert("skus.list"@.len() != "media.list"@.len());
        }
    }
}

} // verus!
