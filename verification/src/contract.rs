//! The service-level contract values the catalog speaks in: its error type, the major-denomination
//! money literal carried on commands, and the declared capability set.
use vstd::prelude::*;

use crate::decimal::{literal_unsigned, well_formed_body, split_literal, chars_all_digits};
use crate::text::{is_blank, string_of, text_is_blank, trim, trimmed_chars};

verus! {

/// The class of a service failure, which decides how a transport answers it.
#[derive(Debug, Clone, Copy, PartialEq, Eq, Hash, Structural)]
pub enum ServiceErrorKind {
    /// The request is malformed or violates a domain rule.
    Validation,
    /// The addressed record does not exist.
    NotFound,
    /// A live record with the same business key already exists.
    Conflict,
    /// Persistence failed.
    Storage,
}

/// A service failure: its kind and a message naming what was wrong.
#[derive(Debug, Clone, PartialEq, Eq)]
pub struct ServiceError {
    pub kind: ServiceErrorKind,
    pub message: String,
}

impl ServiceError {
    /// A validation failure carrying `message`.
    pub fn validation(message: String) -> (e: ServiceError)
        ensures
            e.kind == ServiceErrorKind::Validation,
            e.message@ == message@,
    {
        ServiceError { kind: ServiceErrorKind::Validation, message }
    }

    /// A validation failure carrying a fixed message.
    pub fn validation_text(message: &str) -> (e: ServiceError)
        ensures
            e.kind == ServiceErrorKind::Validation,
            e.message@ == message@,
    {
        ServiceError { kind: ServiceErrorKind::Validation, message: String::from_str(message) }
    }

    /// A missing-record failure carrying `message`.
    pub fn not_found(message: String) -> (e: ServiceError)
        ensures
            e.kind == ServiceErrorKind::NotFound,
            e.message@ == message@,
    {
        ServiceError { kind: ServiceErrorKind::NotFound, message }
    }

    /// A duplicate-key failure carrying `message`.
    pub fn conflict(message: String) -> (e: ServiceError)
        ensures
            e.kind == ServiceErrorKind::Conflict,
            e.message@ == message@,
    {
        ServiceError { kind: ServiceErrorKind::Conflict, message }
    }

    /// A persistence failure carrying `message`.
    pub fn storage(message: String) -> (e: ServiceError)
        ensures
            e.kind == ServiceErrorKind::Storage,
            e.message@ == message@,
    {
        ServiceError { kind: ServiceErrorKind::Storage, message }
    }

    /// The message text.
    pub fn message(&self) -> (m: &str)
        ensures
            m@ == self.message@,
    {
        self.message.as_str()
    }
}

/// Whether a major-denomination amount literal is acceptable on a command: an unsigned decimal
/// (digits with at most one point), surrounding white space aside.
pub open spec fn valid_major_amount(raw: Seq<char>) -> bool {
    let t = trim(raw);
    &&& t == literal_unsigned(t)
    &&& well_formed_body(t)
}

/// A validated major-denomination amount literal such as `"69.90"`; the currency that gives it a
/// scale travels beside it.
#[derive(Debug, Clone, PartialEq, Eq)]
pub struct CommerceMoney {
    amount: String,
}

impl View for CommerceMoney {
    type V = Seq<char>;

    closed spec fn view(&self) -> Seq<char> {
        self.amount@
    }
}

impl CommerceMoney {
    /// Accepts an unsigned decimal literal and keeps it trimmed.
    pub fn new(raw: &str) -> (r: Result<CommerceMoney, ServiceError>)
        ensures
            valid_major_amount(raw@) ==> (r matches Ok(m) && m@ == trim(raw@)),
            !valid_major_amount(raw@) ==> (r matches Err(e) && e.kind
                == ServiceErrorKind::Validation && e.message@
                == "amount must be an unsigned decimal string"@),
    {
        let t = trimmed_chars(raw);
        let refused = ServiceError::validation_text("amount must be an unsigned decimal string");
        if t.len() > 0 && (t[0] == '-' || t[0] == '+') {
            return Err(refused);
        }
        assert(t@ == literal_unsigned(t@));
        let (_negative, whole, fraction) = split_literal(&t);
        if (whole.len() == 0 && fraction.len() == 0) || !chars_all_digits(&whole)
            || !chars_all_digits(&fraction) {
            return Err(refused);
        }
        Ok(CommerceMoney { amount: string_of(&t) })
    }

    /// The amount literal.
    pub fn as_str(&self) -> (s: &str)
        ensures
            s@ == self@,
    {
        self.amount.as_str()
    }
}

/// A capability declaration: the domain, the service namespace, the write commands and read
/// queries it serves, the repository ports it requires, and whether every operation is tenant
/// scoped.
#[derive(Debug, Clone, PartialEq, Eq)]
pub struct CommerceServiceContract {
    pub domain: &'static str,
    pub service_name: &'static str,
    pub write_commands: Vec<&'static str>,
    pub read_queries: Vec<&'static str>,
    pub required_ports: Vec<&'static str>,
    pub tenant_scoped: bool,
}

/// The texts of a list of tokens.
pub open spec fn token_texts(tokens: Seq<&'static str>) -> Seq<Seq<char>> {
    tokens.map_values(|t: &'static str| t@)
}

/// A contract is well formed when its names are present, every token is non-blank, and no token
/// is declared twice across the write and read sets.
pub open spec fn contract_well_formed(c: CommerceServiceContract) -> bool {
    let all = token_texts(c.write_commands@) + token_texts(c.read_queries@);
    &&& !is_blank(c.domain@)
    &&& !is_blank(c.service_name@)
    &&& forall|i: int| 0 <= i < all.len() ==> !is_blank(#[trigger] all[i])
    &&& forall|i: int, j: int| 0 <= i < j < all.len() ==> #[trigger] all[i] != #[trigger] all[j]
}

impl CommerceServiceContract {
    pub fn new(
        domain: &'static str,
        service_name: &'static str,
        write_commands: Vec<&'static str>,
        read_queries: Vec<&'static str>,
        required_ports: Vec<&'static str>,
        tenant_scoped: bool,
    ) -> (c: CommerceServiceContract)
        ensures
            c.domain == domain,
            c.service_name == service_name,
            c.write_commands@ == write_commands@,
            c.read_queries@ == read_queries@,
            c.required_ports@ == required_ports@,
            c.tenant_scoped == tenant_scoped,
    {
        CommerceServiceContract {
            domain,
            service_name,
            write_commands,
            read_queries,
            required_ports,
            tenant_scoped,
        }
    }

    /// Checks the declaration is well formed, naming the first defect.
    pub fn validate(&self) -> (r: Result<(), ServiceError>)
        ensures
            r is Ok <==> contract_well_formed(*self),
            r matches Err(e) ==> e.kind == ServiceErrorKind::Validation,
    {
        if text_is_blank(self.domain) {
            return Err(ServiceError::validation_text("contract domain is required"));
        }
        if text_is_blank(self.service_name) {
            return Err(ServiceError::validation_text("contract service_name is required"));
        }
        let mut all: Vec<&'static str> = self.write_commands.clone();
        let mut reads = self.read_queries.clone();
        all.append(&mut reads);
        let ghost texts = token_texts(self.write_commands@) + token_texts(self.read_queries@);
        assert(token_texts(all@) =~= texts);
        let mut i: usize = 0;
        while i < all.len()
            invariant
                i <= all@.len(),
                texts == token_texts(all@),
                texts == token_texts(self.write_commands@) + token_texts(self.read_queries@),
                forall|a: int| 0 <= a < i ==> !is_blank(#[trigger] texts[a]),
                forall|a: int, b: int| 0 <= a < b < i ==> #[trigger] texts[a] != #[trigger] texts[b],
            decreases all@.len() - i,
        {
            if text_is_blank(all[i]) {
                assert(is_blank(texts[i as int]));
                return Err(ServiceError::validation_text("contract tokens must not be blank"));
            }
            let mut j: usize = 0;
            while j < i
                invariant
                    j <= i < all@.len(),
                    texts == token_texts(all@),
                    texts == token_texts(self.write_commands@) + token_texts(self.read_queries@),
                    forall|b: int| 0 <= b < j ==> texts[b] != texts[i as int],
                decreases i - j,
            {
                if crate::text::text_eq(all[j], all[i]) {
                    assert(texts[j as int] == texts[i as int]);
                    return Err(ServiceError::validation_text("contract tokens must be unique"));
                }
                j = j + 1;
            }
            i = i + 1;
        }
        Ok(())
    }
}

} // verus!
