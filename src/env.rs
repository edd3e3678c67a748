//! Configuration read from environment variables: which variable a setting
//! is read from in the current build, the once-only stores that hold the
//! values, and the decision for each raw value read.
use vstd::prelude::*;
use crate::text::{push_str, starts_with};

verus! {

/// Whether the program was built for development or for release; a setting
/// may be named for one of the two.
#[derive(Clone, Copy, Debug, PartialEq, Eq, Structural)]
pub enum BuildProfile {
    Debug,
    Release,
}

/// A setting that could not be read.
#[derive(Clone, Debug)]
pub enum EnvError {
    Missing { var: String },
    Invalid { var: String, reason: String },
}

pub open spec fn env_error_text(e: EnvError) -> Seq<char> {
    match e {
        EnvError::Missing { var } => "Environment variable "@ + var@ + " must be set"@,
        EnvError::Invalid { var, reason } => "Environment variable "@ + var@ + " is invalid: "@
            + reason@,
    }
}

impl EnvError {
    /// The message shown for this error.
    pub fn message(&self) -> (r: String)
        ensures
            r@ == env_error_text(*self),
    {
        let mut out = String::new();
        push_str(&mut out, "Environment variable ");
        match self {
            EnvError::Missing { var } => {
                push_str(&mut out, var.as_str());
                push_str(&mut out, " must be set");
            },
            EnvError::Invalid { var, reason } => {
                push_str(&mut out, var.as_str());
                push_str(&mut out, " is invalid: ");
                push_str(&mut out, reason.as_str());
            },
        }
        assert(out@ =~= env_error_text(*self));
        out
    }
}

/// The messages as a list, one `- ` item per line.
pub open spec fn error_list(ms: Seq<Seq<char>>) -> Seq<char>
    decreases ms.len(),
{
    if ms.len() == 0 {
        Seq::empty()
    } else if ms.len() == 1 {
        "- "@ + ms[0]
    } else {
        error_list(ms.drop_last()) + "\n- "@ + ms.last()
    }
}

/// Every setting that failed, reported together at startup.
pub struct EnvValidationError {
    details: String,
}

impl EnvValidationError {
    /// The list of the errors' messages, one per line.
    pub closed spec fn details_spec(&self) -> Seq<char> {
        self.details@
    }

    /// Collects the errors' messages, in order, one `- ` item per line.
    pub fn from_errors(errors: Vec<EnvError>) -> (r: Self)
        ensures
            r.details_spec() == error_list(errors@.map_values(|e: EnvError| env_error_text(e))),
    {
        let ghost ms = errors@.map_values(|e: EnvError| env_error_text(e));
        let mut details = String::new();
        let n = errors.len();
        let mut i: usize = 0;
        while i < n
            invariant
                n == errors@.len(),
                ms == errors@.map_values(|e: EnvError| env_error_text(e)),
                i <= n,
                details@ == error_list(ms.take(i as int)),
            decreases n - i,
        {
            let m = errors[i].message();
            if i > 0 {
                push_str(&mut details, "\n- ");
            } else {
                push_str(&mut details, "- ");
            }
            push_str(&mut details, m.as_str());
            assert(ms.take(i + 1).drop_last() =~= ms.take(i as int));
            assert(ms.take(i + 1).last() == m@);
            if i == 0 {
                assert(details@ =~= error_list(ms.take(1)));
            }
            i = i + 1;
        }
        assert(ms.take(n as int) =~= ms);
        EnvValidationError { details }
    }

    /// The list of messages.
    pub fn details(&self) -> (r: &String)
        ensures
            r@ == self.details_spec(),
    {
        &self.details
    }

    /// The message shown when startup stops on these errors.
    pub fn message(&self) -> (r: String)
        ensures
            r@ == "Environment validation failed:\n"@ + self.details_spec(),
    {
        let mut out = String::new();
        push_str(&mut out, "Environment validation failed:\n");
        push_str(&mut out, self.details.as_str());
        out
    }
}

/// A store was given a value a second time.
#[derive(Clone, Copy, Debug, PartialEq, Eq, Structural)]
pub struct EnvSetError;

impl EnvSetError {
    pub fn message(&self) -> (r: String)
        ensures
            r@ == "already initialized"@,
    {
        String::from_str("already initialized")
    }
}

/// A setting's value, set once during startup validation.
pub struct EnvStore<T> {
    base_key: &'static str,
    value: Option<T>,
}

impl<T> EnvStore<T> {
    pub closed spec fn key_spec(&self) -> Seq<char> {
        self.base_key@
    }

    pub closed spec fn value_spec(&self) -> Option<T> {
        self.value
    }

    /// An empty store for the setting named `base_key`.
    pub fn new(base_key: &'static str) -> (r: Self)
        ensures
            r.key_spec() == base_key@,
            r.value_spec() is None,
    {
        EnvStore { base_key, value: None }
    }

    /// The setting's name, as declared.
    pub fn base_key(&self) -> (r: &'static str)
        ensures
            r@ == self.key_spec(),
    {
        self.base_key
    }

    /// Stores `value` unless a value is already there.
    pub fn set(&mut self, value: T) -> (r: Result<(), EnvSetError>)
        ensures
            final(self).key_spec() == old(self).key_spec(),
            old(self).value_spec() is None ==> r is Ok && final(self).value_spec() == Some(value),
            old(self).value_spec() is Some ==> r is Err && final(self).value_spec() == old(
                self,
            ).value_spec(),
    {
        if self.value.is_some() {
            return Err(EnvSetError);
        }
        self.value = Some(value);
        Ok(())
    }

    /// Whether a value has been stored.
    pub fn is_set(&self) -> (r: bool)
        ensures
            r == self.value_spec() is Some,
    {
        self.value.is_some()
    }

    /// The stored value; only to be asked for after startup validation.
    pub fn get(&self) -> (r: &T)
        requires
            self.value_spec() is Some,
        ensures
            Some(*r) == self.value_spec(),
    {
        self.value.as_ref().unwrap()
    }
}

pub open spec fn has_prefix(s: Seq<char>, p: Seq<char>) -> bool {
    p.len() <= s.len() && s.subrange(0, p.len() as int) == p
}

pub open spec fn is_dev_spec(s: Seq<char>) -> bool {
    has_prefix(s, "DEV_"@)
}

pub open spec fn is_prod_spec(s: Seq<char>) -> bool {
    has_prefix(s, "PROD_"@)
}

pub open spec fn is_both_spec(s: Seq<char>) -> bool {
    has_prefix(s, "BOTH_"@)
}

pub open spec fn has_any_prefix_spec(s: Seq<char>) -> bool {
    is_dev_spec(s) || is_prod_spec(s) || is_both_spec(s)
}

fn is_dev(s: &str) -> (r: bool)
    ensures
        r == is_dev_spec(s@),
{
    starts_with(s, "DEV_")
}

fn is_prod(s: &str) -> (r: bool)
    ensures
        r == is_prod_spec(s@),
{
    starts_with(s, "PROD_")
}

fn is_both(s: &str) -> (r: bool)
    ensures
        r == is_both_spec(s@),
{
    starts_with(s, "BOTH_")
}

fn has_any_prefix(s: &str) -> (r: bool)
    ensures
        r == has_any_prefix_spec(s@),
{
    is_dev(s) || is_prod(s) || is_both(s)
}

pub open spec fn active_spec(base_key: Seq<char>, profile: BuildProfile) -> bool {
    if is_dev_spec(base_key) {
        profile == BuildProfile::Debug
    } else if is_prod_spec(base_key) {
        profile == BuildProfile::Release
    } else {
        true
    }
}

/// Whether the setting is read in this build: `DEV_` settings only in
/// development builds, `PROD_` settings only in release builds, all others
/// always.
pub fn active_for_build(base_key: &str, profile: BuildProfile) -> (r: bool)
    ensures
        r == active_spec(base_key@, profile),
{
    if is_dev(base_key) {
        profile == BuildProfile::Debug
    } else if is_prod(base_key) {
        profile == BuildProfile::Release
    } else {
        true
    }
}

/// The build's own prefix for unprefixed settings.
pub open spec fn build_prefix(profile: BuildProfile) -> Seq<char> {
    match profile {
        BuildProfile::Debug => "DEV_"@,
        BuildProfile::Release => "PROD_"@,
    }
}

pub open spec fn prefixed_key_spec(base_key: Seq<char>, profile: BuildProfile) -> Seq<char> {
    if has_any_prefix_spec(base_key) {
        base_key
    } else {
        build_prefix(profile) + base_key
    }
}

fn with_prefix(prefix: &str, key: &str) -> (r: String)
    ensures
        r@ == prefix@ + key@,
{
    String::from_str(prefix).concat(key)
}

/// The name under which a setting is expected in this build, as named in
/// error messages: a prefixed name as it is, else the build's prefix before
/// it.
pub fn prefixed_key_for(base_key: &str, profile: BuildProfile) -> (r: String)
    ensures
        r@ == prefixed_key_spec(base_key@, profile),
{
    if has_any_prefix(base_key) {
        return String::from_str(base_key);
    }
    match profile {
        BuildProfile::Debug => with_prefix("DEV_", base_key),
        BuildProfile::Release => with_prefix("PROD_", base_key),
    }
}

pub open spec fn is_present(present: Seq<String>, key: Seq<char>) -> bool {
    exists|i: int| 0 <= i < present.len() && (#[trigger] present[i])@ == key
}

fn contains_key(present: &Vec<String>, key: &str) -> (r: bool)
    ensures
        r == is_present(present@, key@),
{
    let n = present.len();
    let mut i: usize = 0;
    while i < n
        invariant
            n == present@.len(),
            i <= n,
            forall|j: int| 0 <= j < i ==> (#[trigger] present@[j])@ != key@,
        decreases n - i,
    {
        if crate::text::str_eq(present[i].as_str(), key) {
            return true;
        }
        i = i + 1;
    }
    false
}

/// The variable a setting is read from, given the names of the variables
/// that are set: a prefixed name only as it is; an unprefixed one under the
/// build's prefix, else under `BOTH_`.
pub open spec fn pick_key_spec(name: Seq<char>, profile: BuildProfile, present: Seq<String>) -> Option<
    Seq<char>,
> {
    if has_any_prefix_spec(name) {
        if is_present(present, name) {
            Some(name)
        } else {
            None
        }
    } else if is_present(present, build_prefix(profile) + name) {
        Some(build_prefix(profile) + name)
    } else if is_present(present, "BOTH_"@ + name) {
        Some("BOTH_"@ + name)
    } else {
        None
    }
}

/// Picks the variable to read a setting from, among the names in `present`.
pub fn pick_existing_key(name: &str, profile: BuildProfile, present: &Vec<String>) -> (r: Option<
    String,
>)
    ensures
        r.deep_view() == pick_key_spec(name@, profile, present@),
{
    if has_any_prefix(name) {
        if contains_key(present, name) {
            return Some(String::from_str(name));
        }
        return None;
    }
    let primary = match profile {
        BuildProfile::Debug => with_prefix("DEV_", name),
        BuildProfile::Release => with_prefix("PROD_", name),
    };
    let fallback = with_prefix("BOTH_", name);
    if contains_key(present, primary.as_str()) {
        Some(primary)
    } else if contains_key(present, fallback.as_str()) {
        Some(fallback)
    } else {
        None
    }
}

/// Whether `char::is_whitespace` holds of a character (Unicode White_Space).
pub uninterp spec fn white_space(c: char) -> bool;

/// Relies on char::is_whitespace: whether the character has the Unicode
/// White_Space property.
#[verifier::external_body]
fn is_whitespace(c: char) -> (r: bool)
    ensures
        r == white_space(c),
{
    c.is_whitespace()
}

/// Number of leading white-space characters.
pub open spec fn leading_ws(s: Seq<char>) -> nat
    decreases s.len(),
{
    if s.len() > 0 && white_space(s[0]) {
        1 + leading_ws(s.drop_first())
    } else {
        0
    }
}

/// Number of trailing white-space characters.
pub open spec fn trailing_ws(s: Seq<char>) -> nat
    decreases s.len(),
{
    if s.len() > 0 && white_space(s.last()) {
        1 + trailing_ws(s.drop_last())
    } else {
        0
    }
}

/// `s` without its leading and trailing white space.
pub open spec fn trim_spec(s: Seq<char>) -> Seq<char> {
    let t = s.subrange(leading_ws(s) as int, s.len() as int);
    t.subrange(0, t.len() - trailing_ws(t))
}

proof fn lemma_leading_ws(s: Seq<char>, i: int)
    requires
        0 <= i <= s.len(),
        forall|j: int| 0 <= j < i ==> white_space(#[trigger] s[j]),
    ensures
        leading_ws(s) == i + leading_ws(s.subrange(i, s.len() as int)),
    decreases i,
{
    if i > 0 {
        assert(s.drop_first().subrange(i - 1, s.drop_first().len() as int) =~= s.subrange(
            i,
            s.len() as int,
        ));
        assert forall|j: int| 0 <= j < i - 1 implies white_space(#[trigger] s.drop_first()[j]) by {
            assert(s.drop_first()[j] == s[j + 1]);
        }
        lemma_leading_ws(s.drop_first(), i - 1);
    } else {
        assert(s.subrange(0, s.len() as int) =~= s);
    }
}

proof fn lemma_trailing_ws(s: Seq<char>, k: int)
    requires
        0 <= k <= s.len(),
        forall|j: int| s.len() - k <= j < s.len() ==> white_space(#[trigger] s[j]),
    ensures
        trailing_ws(s) == k + trailing_ws(s.subrange(0, s.len() - k)),
    decreases k,
{
    if k > 0 {
        assert(s.drop_last().subrange(0, s.drop_last().len() - (k - 1)) =~= s.subrange(
            0,
            s.len() - k,
        ));
        assert forall|j: int|
            s.drop_last().len() - (k - 1) <= j < s.drop_last().len() implies white_space(
            #[trigger] s.drop_last()[j],
        ) by {
            assert(s.drop_last()[j] == s[j]);
        }
        lemma_trailing_ws(s.drop_last(), k - 1);
    } else {
        assert(s.subrange(0, s.len() as int) =~= s);
    }
}

/// Removes leading and trailing white space.
pub fn trim(s: &str) -> (r: String)
    ensures
        r@ == trim_spec(s@),
{
    let n = s.unicode_len();
    let mut i: usize = 0;
    while i < n && is_whitespace(s.get_char(i))
        invariant
            n == s@.len(),
            i <= n,
            forall|j: int| 0 <= j < i ==> white_space(#[trigger] s@[j]),
        decreases n - i,
    {
        i = i + 1;
    }
    proof {
        lemma_leading_ws(s@, i as int);
        let rest = s@.subrange(i as int, n as int);
        if i < n {
            assert(rest[0] == s@[i as int]);
        }
        assert(leading_ws(rest) == 0);
    }
    let ghost t = s@.subrange(i as int, n as int);
    let mut j: usize = n;
    while j > i && is_whitespace(s.get_char(j - 1))
        invariant
            n == s@.len(),
            i <= j <= n,
            t == s@.subrange(i as int, n as int),
            forall|m: int| j - i <= m < t.len() ==> white_space(#[trigger] t[m]),
        decreases j,
    {
        assert(t[j - 1 - i] == s@[j - 1]);
        j = j - 1;
    }
    proof {
        lemma_trailing_ws(t, (n - j) as int);
        let u = t.subrange(0, (j - i) as int);
        if j > i {
            assert(u.last() == s@[j - 1]);
        }
        assert(trailing_ws(u) == 0);
    }
    let r = s.substring_char(i, j);
    assert(r@ =~= trim_spec(s@));
    String::from_str(r)
}

/// The error for a store that already held a value.
pub fn already_init(var: &str) -> (r: EnvError)
    ensures
        r matches EnvError::Invalid { var: v, reason } && v@ == var@ && reason@
            == "already initialized"@,
{
    EnvError::Invalid { var: String::from_str(var), reason: String::from_str("already initialized") }
}

/// The error for a value that is not valid UTF-8; `lossy` is the value with
/// the invalid parts replaced.
pub fn not_unicode(var: &str, lossy: &str) -> (r: EnvError)
    ensures
        r matches EnvError::Invalid { var: v, reason } && v@ == var@ && reason@
            == "value is not valid UTF-8: "@ + lossy@,
{
    EnvError::Invalid {
        var: String::from_str(var),
        reason: String::from_str("value is not valid UTF-8: ").concat(lossy),
    }
}

/// What reading a setting's variable gave.
pub enum EnvRead {
    /// No variable for the setting is set.
    Absent,
    /// The variable's value is not valid UTF-8; its lossy rendering.
    NotUnicode(String),
    /// The variable's value.
    Value(String),
}

/// What to do with a setting after reading it.
pub enum EnvPlan {
    /// The setting is not read in this build.
    Skip,
    /// An optional setting with no value: store its absence.
    StoreNone,
    /// Parse `text` as the setting's value and store it; on a parse error
    /// or a second store, report it under `var`.
    Parse { var: String, text: String },
    /// The setting is in error.
    Fail(EnvError),
}

/// Whether what was read counts as no value: absent, or blank.
pub open spec fn read_is_blank(read: EnvRead) -> bool {
    match read {
        EnvRead::Absent => true,
        EnvRead::NotUnicode(_) => false,
        EnvRead::Value(v) => trim_spec(v@).len() == 0,
    }
}

/// Decides what becomes of a setting. Missing or blank values are stored
/// as absent for an optional setting and are an error for a required one;
/// values that are not UTF-8 are an error; all others are trimmed and
/// parsed. Errors name the variable expected in this build.
pub fn plan_env_value(base_key: &str, profile: BuildProfile, optional: bool, read: EnvRead) -> (r:
    EnvPlan)
    ensures
        !active_spec(base_key@, profile) ==> r is Skip,
        active_spec(base_key@, profile) && read_is_blank(read) && optional ==> r is StoreNone,
        active_spec(base_key@, profile) && read_is_blank(read) && !optional ==> (r matches EnvPlan::Fail(
            EnvError::Missing { var },
        ) && var@ == prefixed_key_spec(base_key@, profile)),
        active_spec(base_key@, profile) ==> (read matches EnvRead::NotUnicode(l) ==> (r matches EnvPlan::Fail(
            EnvError::Invalid { var, reason },
        ) && var@ == prefixed_key_spec(base_key@, profile) && reason@
            == "value is not valid UTF-8: "@ + l@)),
        active_spec(base_key@, profile) && !read_is_blank(read) ==> (read matches EnvRead::Value(v)
            ==> (r matches EnvPlan::Parse { var, text } && var@ == prefixed_key_spec(
            base_key@,
            profile,
        ) && text@ == trim_spec(v@))),
{
    if !active_for_build(base_key, profile) {
        return EnvPlan::Skip;
    }
    let var = prefixed_key_for(base_key, profile);
    let text = match read {
        EnvRead::Absent => None,
        EnvRead::NotUnicode(l) => {
            return EnvPlan::Fail(not_unicode(var.as_str(), l.as_str()));
        },
        EnvRead::Value(v) => {
            let t = trim(v.as_str());
            if t.unicode_len() == 0 {
                None
            } else {
                Some(t)
            }
        },
    };
    match text {
        Some(text) => EnvPlan::Parse { var, text },
        None => if optional {
            EnvPlan::StoreNone
        } else {
            EnvPlan::Fail(EnvError::Missing { var })
        },
    }
}

/// A store that startup validation fills: required settings hold the value
/// itself, optional ones an `Option` of it.
pub trait EnvTarget<U> {
    /// Whether the setting may be left unset.
    fn optional(&self) -> bool;

    /// The setting's name, as declared.
    fn base_key(&self) -> &'static str;

    /// Stores a present, parsed value.
    fn set_some(&mut self, v: U) -> Result<(), EnvSetError>;

    /// Stores the absence of a value; refused for a required setting.
    fn set_none(&mut self) -> Result<(), EnvSetError>;
}

impl<U> EnvTarget<U> for EnvStore<U> {
    fn optional(&self) -> bool {
        false
    }

    fn base_key(&self) -> &'static str {
        self.base_key
    }

    fn set_some(&mut self, v: U) -> Result<(), EnvSetError> {
        self.set(v)
    }

    fn set_none(&mut self) -> Result<(), EnvSetError> {
        Err(EnvSetError)
    }
}

impl<U> EnvTarget<U> for EnvStore<Option<U>> {
    fn optional(&self) -> bool {
        true
    }

    fn base_key(&self) -> &'static str {
        self.base_key
    }

    fn set_some(&mut self, v: U) -> Result<(), EnvSetError> {
        self.set(Some(v))
    }

    fn set_none(&mut self) -> Result<(), EnvSetError> {
        self.set(None)
    }
}

} // verus!
