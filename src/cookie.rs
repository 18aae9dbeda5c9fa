use vstd::prelude::*;

verus! {

/// The `SameSite` attribute of the session cookie.
#[derive(Clone, Copy, Debug, PartialEq, Eq, Structural)]
pub enum SameSiteCookieOption {
    NoRestriction,
    Lax,
    Strict,
}

/// How the session cookie is rendered: its name and value, its lifetime
/// and the static attributes fixed at configuration time.
///
/// `cookie_value` is the session decision: while it is `None`, no
/// `Set-Cookie` header is emitted at all.
#[derive(Clone, Debug)]
pub struct CookieOptions {
    pub cookie_name: String,
    pub cookie_value: Option<String>,
    pub max_age: Option<u64>,
    pub domain: Option<String>,
    pub path: Option<String>,
    pub secure: bool,
    pub http_only: bool,
    pub same_site: Option<SameSiteCookieOption>,
}

/// The mathematical model of `CookieOptions`: strings as character sequences.
pub struct CookieOptionsView {
    pub name: Seq<char>,
    pub value: Option<Seq<char>>,
    pub max_age: Option<u64>,
    pub domain: Option<Seq<char>>,
    pub path: Option<Seq<char>>,
    pub secure: bool,
    pub http_only: bool,
    pub same_site: Option<SameSiteCookieOption>,
}

pub open spec fn opt_view(s: Option<String>) -> Option<Seq<char>> {
    match s {
        Some(t) => Some(t@),
        None => None,
    }
}

impl View for CookieOptions {
    type V = CookieOptionsView;

    open spec fn view(&self) -> CookieOptionsView {
        CookieOptionsView {
            name: self.cookie_name@,
            value: opt_view(self.cookie_value),
            max_age: self.max_age,
            domain: opt_view(self.domain),
            path: opt_view(self.path),
            secure: self.secure,
            http_only: self.http_only,
            same_site: self.same_site,
        }
    }
}

impl Default for CookieOptions {
    /// A cookie named `sid`, with no value yet, living 60 seconds,
    /// `HttpOnly` and `SameSite=Strict`.
    fn default() -> (r: CookieOptions)
        ensures
            r@.name == "sid"@,
            r@.value is None,
            r@.max_age == Some(60u64),
            r@.domain is None,
            r@.path is None,
            !r@.secure,
            r@.http_only,
            r@.same_site == Some(SameSiteCookieOption::Strict),
    {
        CookieOptions {
            cookie_name: String::from_str("sid"),
            cookie_value: None,
            max_age: Some(60),
            domain: None,
            path: None,
            secure: false,
            http_only: true,
            same_site: Some(SameSiteCookieOption::Strict),
        }
    }
}

/// The character of a decimal digit `d < 10`.
pub open spec fn digit_char(d: nat) -> char {
    if d == 0 { '0' }
    else if d == 1 { '1' }
    else if d == 2 { '2' }
    else if d == 3 { '3' }
    else if d == 4 { '4' }
    else if d == 5 { '5' }
    else if d == 6 { '6' }
    else if d == 7 { '7' }
    else if d == 8 { '8' }
    else { '9' }
}

/// The decimal notation of `n`, without leading zeros.
pub open spec fn decimal(n: nat) -> Seq<char>
    decreases n,
{
    if n < 10 {
        seq![digit_char(n)]
    } else {
        decimal(n / 10).push(digit_char(n % 10))
    }
}

pub open spec fn same_site_text(s: SameSiteCookieOption) -> Seq<char> {
    match s {
        SameSiteCookieOption::NoRestriction => "None"@,
        SameSiteCookieOption::Lax => "Lax"@,
        SameSiteCookieOption::Strict => "Strict"@,
    }
}

/// `name=value`, an absent value written as the empty string.
pub open spec fn pair_text(o: CookieOptionsView) -> Seq<char> {
    o.name + "="@ + match o.value {
        Some(v) => v,
        None => Seq::empty(),
    }
}

/// `label` followed by the attribute's value, or nothing where it is unset.
pub open spec fn opt_attr_text(label: Seq<char>, v: Option<Seq<char>>) -> Seq<char> {
    match v {
        Some(x) => label + x,
        None => Seq::empty(),
    }
}

/// `label` where the flag is set, or nothing.
pub open spec fn flag_text(label: Seq<char>, b: bool) -> Seq<char> {
    if b {
        label
    } else {
        Seq::empty()
    }
}

pub open spec fn max_age_text(m: Option<u64>) -> Seq<char> {
    match m {
        Some(n) => "; Max-Age="@ + decimal(n as nat),
        None => Seq::empty(),
    }
}

pub open spec fn same_site_attr_text(s: Option<SameSiteCookieOption>) -> Seq<char> {
    match s {
        Some(x) => "; SameSite="@ + same_site_text(x),
        None => Seq::empty(),
    }
}

/// The text of the `Set-Cookie` header for these options: `name=value`,
/// then the attributes in a fixed order, each only where it is set.
pub open spec fn header_text(o: CookieOptionsView) -> Seq<char> {
    pair_text(o) + max_age_text(o.max_age) + opt_attr_text("; Domain="@, o.domain)
        + opt_attr_text("; Path="@, o.path) + flag_text("; Secure"@, o.secure)
        + flag_text("; HttpOnly"@, o.http_only) + same_site_attr_text(o.same_site)
}

fn digit_str(d: u64) -> (r: &'static str)
    requires
        d < 10,
    ensures
        r@ == seq![digit_char(d as nat)],
{
    proof {
        reveal_strlit("0");
        reveal_strlit("1");
        reveal_strlit("2");
        reveal_strlit("3");
        reveal_strlit("4");
        reveal_strlit("5");
        reveal_strlit("6");
        reveal_strlit("7");
        reveal_strlit("8");
        reveal_strlit("9");
    }
    let r = if d == 0 { "0" }
    else if d == 1 { "1" }
    else if d == 2 { "2" }
    else if d == 3 { "3" }
    else if d == 4 { "4" }
    else if d == 5 { "5" }
    else if d == 6 { "6" }
    else if d == 7 { "7" }
    else if d == 8 { "8" }
    else { "9" };
    assert(r@ =~= seq![digit_char(d as nat)]);
    r
}

/// Appends the decimal notation of `n` to `s`.
pub fn push_decimal(s: &mut String, n: u64)
    ensures
        final(s)@ == old(s)@ + decimal(n as nat),
    decreases n,
{
    if n >= 10 {
        push_decimal(s, n / 10);
    }
    s.append(digit_str(n % 10));
    proof {
        if n >= 10 {
            assert(old(s)@ + decimal(n as nat) =~= old(s)@ + decimal((n / 10) as nat) + seq![digit_char((n % 10) as nat)]);
        } else {
            assert(old(s)@ + decimal(n as nat) =~= old(s)@ + seq![digit_char((n % 10) as nat)]);
        }
    }
}

fn append_opt_attr(s: &mut String, label: &str, v: &Option<String>)
    ensures
        final(s)@ == old(s)@ + opt_attr_text(label@, opt_view(*v)),
{
    match v {
        Some(x) => {
            s.append(label);
            s.append(x.as_str());
            assert(final(s)@ =~= old(s)@ + opt_attr_text(label@, opt_view(*v)));
        },
        None => {
            assert(final(s)@ =~= old(s)@ + opt_attr_text(label@, opt_view(*v)));
        },
    }
}

fn append_flag(s: &mut String, label: &str, b: bool)
    ensures
        final(s)@ == old(s)@ + flag_text(label@, b),
{
    if b {
        s.append(label);
    }
    assert(final(s)@ =~= old(s)@ + flag_text(label@, b));
}

fn append_max_age(s: &mut String, m: Option<u64>)
    ensures
        final(s)@ == old(s)@ + max_age_text(m),
{
    match m {
        Some(n) => {
            s.append("; Max-Age=");
            push_decimal(s, n);
        },
        None => {},
    }
    assert(final(s)@ =~= old(s)@ + max_age_text(m));
}

fn append_same_site(s: &mut String, m: Option<SameSiteCookieOption>)
    ensures
        final(s)@ == old(s)@ + same_site_attr_text(m),
{
    match m {
        Some(x) => {
            s.append("; SameSite=");
            match x {
                SameSiteCookieOption::NoRestriction => s.append("None"),
                SameSiteCookieOption::Lax => s.append("Lax"),
                SameSiteCookieOption::Strict => s.append("Strict"),
            }
        },
        None => {},
    }
    assert(final(s)@ =~= old(s)@ + same_site_attr_text(m));
}

impl CookieOptions {
    /// The text of the `Set-Cookie` header:
    /// `name=value[; Max-Age=n][; Domain=d][; Path=p][; Secure][; HttpOnly][; SameSite=s]`.
    pub fn to_header_string(&self) -> (r: String)
        ensures
            r@ == header_text(self@),
    {
        let mut s = self.cookie_name.clone();
        s.append("=");
        match &self.cookie_value {
            Some(v) => s.append(v.as_str()),
            None => {},
        }
        let ghost s0 = s@;
        assert(s0 =~= pair_text(self@));
        append_max_age(&mut s, self.max_age);
        append_opt_attr(&mut s, "; Domain=", &self.domain);
        append_opt_attr(&mut s, "; Path=", &self.path);
        append_flag(&mut s, "; Secure", self.secure);
        append_flag(&mut s, "; HttpOnly", self.http_only);
        append_same_site(&mut s, self.same_site);
        s
    }
}

} // verus!
