//! The resolver cache: the bearer credential, the folder of each invoice-number
//! prefix and the remote contact of each billing address.
use vstd::prelude::*;
use vstd::utf8::encode_utf8;

verus! {

/// The local folder that holds the attachments of one invoice-number prefix.
#[derive(Clone, Debug)]
pub struct PrefixConfig {
    pub prefix: String,
    pub path: String,
}

/// The remote contact identifier learned for one billing address.
#[derive(Clone, Debug)]
pub struct Customer {
    pub customer_id: String,
    pub customer_adress: String,
}

/// The credential and the two learned mappings. An absent list is read as empty.
#[derive(Debug)]
pub struct Config {
    pub api_key: String,
    pub prefixes: Option<Vec<PrefixConfig>>,
    pub customers: Option<Vec<Customer>>,
}

/// The path of the first entry of `s` for `prefix`, if any.
pub open spec fn find_path(s: Seq<PrefixConfig>, prefix: Seq<char>) -> Option<Seq<char>>
    decreases s.len(),
{
    if s.len() == 0 {
        None
    } else if s[0].prefix@ == prefix {
        Some(s[0].path@)
    } else {
        find_path(s.drop_first(), prefix)
    }
}

/// The contact identifier of the first entry of `s` for `address`, if any.
pub open spec fn find_customer(s: Seq<Customer>, address: Seq<char>) -> Option<Seq<char>>
    decreases s.len(),
{
    if s.len() == 0 {
        None
    } else if s[0].customer_adress@ == address {
        Some(s[0].customer_id@)
    } else {
        find_customer(s.drop_first(), address)
    }
}

/// An ASCII hexadecimal digit, in either case.
pub open spec fn is_hex_char(c: char) -> bool {
    ('0' <= c && c <= '9') || ('a' <= c && c <= 'f') || ('A' <= c && c <= 'F')
}

/// 32 hexadecimal digits.
pub open spec fn is_simple_uuid(s: Seq<char>) -> bool {
    s.len() == 32 && forall|i: int| 0 <= i < 32 ==> is_hex_char(#[trigger] s[i])
}

/// 36 characters in the groups 8-4-4-4-12 of hexadecimal digits.
pub open spec fn is_hyphenated_uuid(s: Seq<char>) -> bool {
    &&& s.len() == 36
    &&& forall|i: int|
        0 <= i < 36 ==> if i == 8 || i == 13 || i == 18 || i == 23 {
            #[trigger] s[i] == '-'
        } else {
            is_hex_char(s[i])
        }
}

/// `s` starts with `urn:uuid:`, in any case.
pub open spec fn has_urn_prefix(s: Seq<char>) -> bool {
    &&& s.len() >= 9
    &&& (s[0] == 'u' || s[0] == 'U') && (s[1] == 'r' || s[1] == 'R') && (s[2] == 'n' || s[2] == 'N')
    &&& s[3] == ':'
    &&& (s[4] == 'u' || s[4] == 'U') && (s[5] == 'u' || s[5] == 'U') && (s[6] == 'i' || s[6] == 'I')
    &&& (s[7] == 'd' || s[7] == 'D')
    &&& s[8] == ':'
}

/// The texts the `uuid` crate accepts: simple, hyphenated, hyphenated in
/// braces, or hyphenated after a `urn:uuid:` prefix.
pub open spec fn is_uuid_text(s: Seq<char>) -> bool {
    ||| is_simple_uuid(s)
    ||| is_hyphenated_uuid(s)
    ||| (s.len() == 38 && s[0] == '{' && s[37] == '}' && is_hyphenated_uuid(s.subrange(1, 37)))
    ||| (s.len() == 45 && has_urn_prefix(s) && is_hyphenated_uuid(s.subrange(9, 45)))
}

/// Relies on `uuid::Uuid::parse_str`: its `try_parse` accepts by byte length
/// 32 (simple), 36 (hyphenated), 38 (braced) or 45 (`urn:uuid:` in any
/// case), with ASCII hexadecimal digits in either case; every accepted text
/// is ASCII, so byte and character positions agree.
#[verifier::external_body]
fn uuid_accepts(s: &str) -> (r: bool)
    ensures
        r == is_uuid_text(s@),
{
    uuid::Uuid::parse_str(s).is_ok()
}

/// Why a learned answer was not stored.
#[derive(Clone, Copy, Debug, PartialEq, Eq)]
pub enum ConfigError {
    /// The contact identifier is not a UUID.
    InvalidCustomerId,
}

/// The prefix entries of `cfg`, empty when the list is absent.
pub open spec fn prefix_entries(cfg: &Config) -> Seq<PrefixConfig> {
    match cfg.prefixes {
        Some(v) => v@,
        None => Seq::empty(),
    }
}

/// The customer entries of `cfg`, empty when the list is absent.
pub open spec fn customer_entries(cfg: &Config) -> Seq<Customer> {
    match cfg.customers {
        Some(v) => v@,
        None => Seq::empty(),
    }
}

/// Makes the prefix list present, keeping its entries.
pub fn init_prefixes(cfg: &mut Config)
    ensures
        final(cfg).prefixes is Some,
        prefix_entries(final(cfg)) == prefix_entries(old(cfg)),
        final(cfg).api_key == old(cfg).api_key,
        final(cfg).customers == old(cfg).customers,
{
    if cfg.prefixes.is_none() {
        cfg.prefixes = Some(Vec::new());
    }
}

/// Makes the customer list present, keeping its entries.
pub fn init_customers(cfg: &mut Config)
    ensures
        final(cfg).customers is Some,
        customer_entries(final(cfg)) == customer_entries(old(cfg)),
        final(cfg).api_key == old(cfg).api_key,
        final(cfg).prefixes == old(cfg).prefixes,
{
    if cfg.customers.is_none() {
        cfg.customers = Some(Vec::new());
    }
}

impl Config {
    /// A configuration with the given credential and empty, present lists.
    pub fn with_api_key(api_key: String) -> (r: Config)
        ensures
            r.api_key == api_key,
            r.prefixes is Some && prefix_entries(&r).len() == 0,
            r.customers is Some && customer_entries(&r).len() == 0,
    {
        Config { api_key, prefixes: Some(Vec::new()), customers: Some(Vec::new()) }
    }

    /// The credential is plausible: longer than 15 bytes.
    pub fn validate(&self) -> (r: bool)
        ensures
            r == self.validate_spec(),
    {
        self.api_key.as_str().as_bytes().len() > 15
    }

    /// The folder learned for `prefix`, from the first matching entry.
    pub fn get_path(&self, prefix: &str) -> (r: Option<String>)
        ensures
            r is Some <==> find_path(prefix_entries(self), prefix@) is Some,
            r is Some ==> r->0@ == find_path(prefix_entries(self), prefix@)->0,
    {
        match &self.prefixes {
            None => None,
            Some(v) => {
                let p = String::from_str(prefix);
                let mut i: usize = 0;
                assert(v@.subrange(0, v@.len() as int) =~= v@);
                while i < v.len()
                    invariant
                        i <= v@.len(),
                        p@ == prefix@,
                        prefix_entries(self) == v@,
                        find_path(v@, prefix@) == find_path(v@.subrange(i as int, v@.len() as int), prefix@),
                    decreases v@.len() - i,
                {
                    assert(v@.subrange(i as int, v@.len() as int).drop_first()
                        =~= v@.subrange(i + 1, v@.len() as int));
                    if v[i].prefix == p {
                        return Some(v[i].path.clone());
                    }
                    i = i + 1;
                }
                None
            },
        }
    }

    /// The contact identifier learned for `address`, from the first matching entry.
    pub fn get_customer_id(&self, address: &String) -> (r: Option<String>)
        ensures
            r is Some <==> find_customer(customer_entries(self), address@) is Some,
            r is Some ==> r->0@ == find_customer(customer_entries(self), address@)->0,
    {
        match &self.customers {
            None => None,
            Some(v) => {
                let mut i: usize = 0;
                assert(v@.subrange(0, v@.len() as int) =~= v@);
                while i < v.len()
                    invariant
                        i <= v@.len(),
                        customer_entries(self) == v@,
                        find_customer(v@, address@) == find_customer(
                            v@.subrange(i as int, v@.len() as int),
                            address@,
                        ),
                    decreases v@.len() - i,
                {
                    assert(v@.subrange(i as int, v@.len() as int).drop_first()
                        =~= v@.subrange(i + 1, v@.len() as int));
                    if v[i].customer_adress.eq(address) {
                        return Some(v[i].customer_id.clone());
                    }
                    i = i + 1;
                }
                None
            },
        }
    }

    /// Records the folder of a prefix after the existing entries.
    pub fn add_prefix(&mut self, prefix: String, path: String)
        ensures
            final(self).prefixes is Some,
            prefix_entries(final(self)) == prefix_entries(old(self)).push(
                PrefixConfig { prefix, path },
            ),
            final(self).api_key == old(self).api_key,
            final(self).customers == old(self).customers,
    {
        init_prefixes(self);
        let entry = PrefixConfig { prefix, path };
        match &mut self.prefixes {
            Some(v) => v.push(entry),
            None => {},
        }
    }

    /// Records the contact of an address when the identifier is a UUID.
    pub fn add_customer(&mut self, address: String, id: String) -> (r: Result<(), ConfigError>)
        ensures
            is_uuid_text(id@) ==> r is Ok && final(self).customers is Some && customer_entries(
                final(self),
            ) == customer_entries(old(self)).push(
                Customer { customer_id: id, customer_adress: address },
            ),
            !is_uuid_text(id@) ==> r == Err::<(), ConfigError>(ConfigError::InvalidCustomerId)
                && final(self).customers == old(self).customers,
            final(self).api_key == old(self).api_key,
            final(self).prefixes == old(self).prefixes,
    {
        if !uuid_accepts(id.as_str()) {
            return Err(ConfigError::InvalidCustomerId);
        }
        init_customers(self);
        let entry = Customer { customer_id: id, customer_adress: address };
        match &mut self.customers {
            Some(v) => v.push(entry),
            None => {},
        }
        Ok(())
    }

    /// Forgets the credential, so that it fails validation and is acquired anew.
    pub fn invalidate_api_key(&mut self)
        ensures
            final(self).api_key@ == Seq::<char>::empty(),
            !final(self).validate_spec(),
            final(self).prefixes == old(self).prefixes,
            final(self).customers == old(self).customers,
    {
        self.api_key = String::new();
        assert(encode_utf8(self.api_key@) =~= Seq::<u8>::empty());
    }

    /// Installs a newly acquired credential.
    pub fn set_api_key(&mut self, api_key: String)
        ensures
            final(self).api_key == api_key,
            final(self).prefixes == old(self).prefixes,
            final(self).customers == old(self).customers,
    {
        self.api_key = api_key;
    }

    /// What `validate` returns.
    pub open spec fn validate_spec(&self) -> bool {
        encode_utf8(self.api_key@).len() > 15
    }
}

} // verus!
