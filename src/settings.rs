//! Global settings: custom resource tags, region and network overrides.
use vstd::prelude::*;

use crate::error::{Ec2CliError, Result};
use crate::strmap::{key_index, StringMap};
use crate::text::{concat3, has_prefix, is_ascii_digit, owned, starts_with};

verus! {

/// Global settings.
#[derive(Debug, Clone)]
pub struct Settings {
    /// Custom tags applied to every created resource.
    pub tags: StringMap,
    /// Region override.
    pub region: Option<String>,
    /// Network id to use instead of the account's default network.
    pub vpc_id: Option<String>,
    /// Subnet to launch instances in.
    pub subnet_id: Option<String>,
}

impl Default for Settings {
    fn default() -> (r: Self)
        ensures
            r.tags@.len() == 0,
            r.tags.wf(),
            r.region is None,
            r.vpc_id is None,
            r.subnet_id is None,
    {
        Settings { tags: StringMap::new(), region: None, vpc_id: None, subnet_id: None }
    }
}

pub const TAG_KEY_MAX_LEN: usize = 128;

pub const TAG_VALUE_MAX_LEN: usize = 256;

pub const USERNAME_TAG: &'static str = "Username";

/// A printable ASCII character: space through `~`.
pub open spec fn is_printable_ascii(c: char) -> bool {
    ' ' <= c && c <= '~'
}

pub open spec fn all_printable(s: Seq<char>) -> bool {
    forall|i: int| 0 <= i < s.len() ==> is_printable_ascii(#[trigger] s[i])
}

/// A tag key: 1 to 128 printable ASCII characters, not starting with the reserved `aws:`.
pub open spec fn is_tag_key(s: Seq<char>) -> bool {
    &&& s.len() > 0
    &&& s.len() <= TAG_KEY_MAX_LEN
    &&& !has_prefix(s, "aws:"@)
    &&& all_printable(s)
}

/// A tag value: at most 256 printable ASCII characters.
pub open spec fn is_tag_value(s: Seq<char>) -> bool {
    s.len() <= TAG_VALUE_MAX_LEN && all_printable(s)
}

/// Number of `-` in `s`.
pub open spec fn dash_count(s: Seq<char>) -> nat
    decreases s.len(),
{
    if s.len() == 0 {
        0
    } else {
        dash_count(s.drop_last()) + if s.last() == '-' { 1nat } else { 0nat }
    }
}

/// The text after the last `-` of `s` (all of `s` when it has none).
pub open spec fn last_segment(s: Seq<char>) -> Seq<char>
    decreases s.len(),
{
    if s.len() == 0 {
        s
    } else if s.last() == '-' {
        Seq::empty()
    } else {
        last_segment(s.drop_last()).push(s.last())
    }
}

pub open spec fn all_digits(s: Seq<char>) -> bool {
    forall|i: int| 0 <= i < s.len() ==> is_ascii_digit(#[trigger] s[i])
}

/// The number written by the decimal digits of `s`.
pub open spec fn digits_value(s: Seq<char>) -> nat
    decreases s.len(),
{
    if s.len() == 0 {
        0
    } else {
        digits_value(s.drop_last()) * 10 + (s.last() as nat - '0' as nat) as nat
    }
}

/// The digits of an unsigned decimal numeral with an optional leading `+`.
pub open spec fn numeral_digits(s: Seq<char>) -> Seq<char> {
    if s.len() > 0 && s[0] == '+' {
        s.drop_first()
    } else {
        s
    }
}

/// A decimal numeral that fits in 32 bits, as `u32`'s `from_str` accepts it.
pub open spec fn is_u32_numeral(s: Seq<char>) -> bool {
    let d = numeral_digits(s);
    d.len() > 0 && all_digits(d) && digits_value(d) <= u32::MAX
}

/// A region name: at least three `-`-separated parts, the last a number.
pub open spec fn is_region(s: Seq<char>) -> bool {
    dash_count(s) >= 2 && is_u32_numeral(last_segment(s))
}

pub open spec fn is_ascii_hex(c: char) -> bool {
    ('0' <= c && c <= '9') || ('a' <= c && c <= 'f') || ('A' <= c && c <= 'F')
}

/// A network id: `vpc-` followed by at least eight hexadecimal digits.
pub open spec fn is_vpc_id(s: Seq<char>) -> bool {
    &&& has_prefix(s, "vpc-"@)
    &&& s.len() >= 12
    &&& forall|i: int| 4 <= i < s.len() ==> is_ascii_hex(#[trigger] s[i])
}

fn config_error(m: String) -> (r: Ec2CliError)
    ensures
        r is Config,
{
    Ec2CliError::Config(m)
}

fn check_printable(s: &str) -> (r: bool)
    ensures
        r == all_printable(s@),
{
    let n = s.unicode_len();
    let mut i: usize = 0;
    while i < n
        invariant
            n == s@.len(),
            i <= n,
            forall|j: int| 0 <= j < i ==> is_printable_ascii(#[trigger] s@[j]),
        decreases n - i,
    {
        let c = s.get_char(i);
        if !(' ' <= c && c <= '~') {
            return false;
        }
        i += 1;
    }
    true
}

proof fn lemma_segment_of_dashless(s: Seq<char>)
    requires
        forall|i: int| 0 <= i < s.len() ==> s[i] != '-',
    ensures
        last_segment(s) == s,
        dash_count(s) == 0,
    decreases s.len(),
{
    if s.len() > 0 {
        lemma_segment_of_dashless(s.drop_last());
        assert(s.drop_last().push(s.last()) =~= s);
    }
}

proof fn lemma_segment_after_dash(s: Seq<char>, k: int)
    requires
        0 <= k < s.len(),
        s[k] == '-',
        forall|i: int| k < i < s.len() ==> s[i] != '-',
    ensures
        last_segment(s) == s.subrange(k + 1, s.len() as int),
        dash_count(s) == dash_count(s.subrange(0, k)) + 1,
    decreases s.len(),
{
    if k == s.len() - 1 {
        assert(s.drop_last() =~= s.subrange(0, k));
    } else {
        lemma_segment_after_dash(s.drop_last(), k);
        assert(s.drop_last().subrange(0, k) =~= s.subrange(0, k));
        assert(s.drop_last().subrange(k + 1, s.len() - 1).push(s.last()) =~= s.subrange(
            k + 1,
            s.len() as int,
        ));
    }
}

proof fn lemma_digits_value_step(s: Seq<char>, i: int)
    requires
        0 <= i < s.len(),
    ensures
        digits_value(s.subrange(0, i + 1)) == digits_value(s.subrange(0, i)) * 10 + (s[i] as nat
            - '0' as nat) as nat,
{
    assert(s.subrange(0, i + 1).drop_last() =~= s.subrange(0, i));
}

/// Parses a decimal numeral as `u32`'s `from_str` does: `None` when it is not one.
fn parse_u32(s: &str) -> (r: Option<u32>)
    ensures
        r is Some <==> is_u32_numeral(s@),
        r is Some ==> r->Some_0 as nat == digits_value(numeral_digits(s@)),
{
    let n = s.unicode_len();
    let mut start: usize = 0;
    if n > 0 && s.get_char(0) == '+' {
        start = 1;
    }
    let ghost d = numeral_digits(s@);
    assert(d =~= s@.subrange(start as int, n as int));
    if start == n {
        return None;
    }
    let mut value: u64 = 0;
    let mut i: usize = start;
    while i < n
        invariant
            n == s@.len(),
            start <= i <= n,
            d == numeral_digits(s@),
            d == s@.subrange(start as int, n as int),
            value as nat == digits_value(d.subrange(0, i - start)),
            value <= u32::MAX,
            all_digits(d.subrange(0, i - start)),
        decreases n - i,
    {
        let c = s.get_char(i);
        if !('0' <= c && c <= '9') {
            assert(d[i - start] == s@[i as int]);
            assert(!all_digits(d));
            return None;
        }
        proof {
            assert(d[i - start] == s@[i as int]);
            lemma_digits_value_step(d, i - start);
        }
        let digit = (c as u32 - '0' as u32) as u64;
        value = value * 10 + digit;
        if value > 4294967295 {
            proof {
                if all_digits(d) {
                    lemma_value_prefix_bound(d, i - start + 1);
                }
            }
            return None;
        }
        assert(all_digits(d.subrange(0, i - start + 1)));
        i += 1;
    }
    assert(d.subrange(0, n - start) =~= d);
    Some(value as u32)
}

proof fn lemma_value_prefix_bound(d: Seq<char>, k: int)
    requires
        0 <= k <= d.len(),
        all_digits(d),
    ensures
        digits_value(d) >= digits_value(d.subrange(0, k)),
    decreases d.len() - k,
{
    if k < d.len() {
        lemma_value_prefix_bound(d, k + 1);
        lemma_digits_value_step(d, k);
    } else {
        assert(d.subrange(0, k) =~= d);
    }
}

impl Settings {
    /// Checks a tag key.
    pub fn validate_tag_key(key: &str) -> (r: Result<()>)
        ensures
            r is Ok <==> is_tag_key(key@),
            r is Err ==> r->Err_0 is Config,
    {
        let n = key.unicode_len();
        if n == 0 {
            return Err(config_error(owned("Tag key cannot be empty")));
        }
        if n > TAG_KEY_MAX_LEN {
            return Err(config_error(owned("Tag key cannot exceed 128 characters")));
        }
        if starts_with(key, "aws:") {
            return Err(config_error(owned("Tag key cannot start with 'aws:' (reserved prefix)")));
        }
        if !check_printable(key) {
            return Err(config_error(owned("Tag key must contain only ASCII printable characters")));
        }
        Ok(())
    }

    /// Checks a tag value; the empty value is accepted.
    pub fn validate_tag_value(value: &str) -> (r: Result<()>)
        ensures
            r is Ok <==> is_tag_value(value@),
            r is Err ==> r->Err_0 is Config,
    {
        if value.unicode_len() > TAG_VALUE_MAX_LEN {
            return Err(config_error(owned("Tag value cannot exceed 256 characters")));
        }
        if !check_printable(value) {
            return Err(config_error(owned("Tag value must contain only ASCII printable characters")));
        }
        Ok(())
    }

    /// Validates and stores a tag; an existing tag of that key is replaced in place.
    pub fn set_tag(&mut self, key: &str, value: &str) -> (r: Result<()>)
        requires
            old(self).tags.wf(),
        ensures
            final(self).tags.wf(),
            r is Ok <==> is_tag_key(key@) && is_tag_value(value@),
            r is Err ==> r->Err_0 is Config && *final(self) == *old(self),
            r is Ok ==> final(self).tags.lookup(key@) == Some(value@),
            r is Ok ==> match key_index(old(self).tags@, key@) {
                Some(i) => final(self).tags@ == old(self).tags@.update(i, (key@, value@)),
                None => final(self).tags@ == old(self).tags@.push((key@, value@)),
            },
            final(self).region == old(self).region,
            final(self).vpc_id == old(self).vpc_id,
            final(self).subnet_id == old(self).subnet_id,
    {
        if let Err(e) = Self::validate_tag_key(key) {
            return Err(e);
        }
        if let Err(e) = Self::validate_tag_value(value) {
            return Err(e);
        }
        let _ = self.tags.insert(owned(key), owned(value));
        Ok(())
    }

    /// Removes a tag, returning its value.
    pub fn remove_tag(&mut self, key: &str) -> (r: Option<String>)
        requires
            old(self).tags.wf(),
        ensures
            final(self).tags.wf(),
            r is Some <==> old(self).tags.lookup(key@) is Some,
            r is Some ==> r->Some_0@ == old(self).tags.lookup(key@)->Some_0,
            match key_index(old(self).tags@, key@) {
                Some(i) => final(self).tags@ == old(self).tags@.remove(i),
                None => final(self).tags@ == old(self).tags@,
            },
            final(self).region == old(self).region,
            final(self).vpc_id == old(self).vpc_id,
            final(self).subnet_id == old(self).subnet_id,
    {
        self.tags.remove(key)
    }

    /// Whether a `Username` tag is configured.
    pub fn has_username_tag(&self) -> (r: bool)
        requires
            self.tags.wf(),
        ensures
            r == self.tags.lookup(USERNAME_TAG@) is Some,
    {
        self.tags.contains_key(USERNAME_TAG)
    }

    /// Checks a region name such as `us-east-1`.
    pub fn validate_region(region: &str) -> (r: Result<()>)
        ensures
            r is Ok <==> is_region(region@),
            r is Err ==> r->Err_0 is Config,
    {
        let n = region.unicode_len();
        let mut dashes: usize = 0;
        let mut last_dash: usize = 0;
        let mut i: usize = 0;
        while i < n
            invariant
                n == region@.len(),
                i <= n,
                dashes <= i,
                dashes == dash_count(region@.subrange(0, i as int)),
                dashes > 0 ==> last_dash < i && region@[last_dash as int] == '-',
                dashes > 0 ==> forall|j: int| last_dash < j < i ==> region@[j] != '-',
                dashes == 0 ==> forall|j: int| 0 <= j < i ==> region@[j] != '-',
            decreases n - i,
        {
            assert(region@.subrange(0, i + 1).drop_last() =~= region@.subrange(0, i as int));
            if region.get_char(i) == '-' {
                dashes += 1;
                last_dash = i;
            }
            i += 1;
        }
        assert(region@.subrange(0, n as int) =~= region@);
        let segment = if dashes == 0 {
            proof {
                lemma_segment_of_dashless(region@);
            }
            region
        } else {
            proof {
                lemma_segment_after_dash(region@, last_dash as int);
            }
            region.substring_char(last_dash + 1, n)
        };
        assert(segment@ == last_segment(region@));
        if dashes < 2 || parse_u32(segment).is_none() {
            return Err(config_error(concat3("Invalid AWS region format: '", region,
                "'. Expected format like 'us-east-1'")));
        }
        Ok(())
    }

    /// Checks a network id such as `vpc-0a1b2c3d`.
    pub fn validate_vpc_id(vpc_id: &str) -> (r: Result<()>)
        ensures
            r is Ok <==> is_vpc_id(vpc_id@),
            r is Err ==> r->Err_0 is Config,
    {
        if !starts_with(vpc_id, "vpc-") {
            return Err(config_error(concat3("Invalid VPC ID format: '", vpc_id,
                "'. Must start with 'vpc-'")));
        }
        proof {
            reveal_strlit("vpc-");
        }
        let n = vpc_id.unicode_len();
        if n < 12 {
            return Err(config_error(concat3("Invalid VPC ID format: '", vpc_id,
                "'. Expected format like 'vpc-12345678'")));
        }
        let mut i: usize = 4;
        while i < n
            invariant
                n == vpc_id@.len(),
                4 <= i <= n,
                forall|j: int| 4 <= j < i ==> is_ascii_hex(#[trigger] vpc_id@[j]),
            decreases n - i,
        {
            let c = vpc_id.get_char(i);
            if !(('0' <= c && c <= '9') || ('a' <= c && c <= 'f') || ('A' <= c && c <= 'F')) {
                return Err(config_error(concat3("Invalid VPC ID format: '", vpc_id,
                    "'. Expected format like 'vpc-12345678'")));
            }
            i += 1;
        }
        Ok(())
    }
}

} // verus!
