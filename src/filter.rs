use vstd::prelude::*;
use vstd::utf8::encode_utf8;

verus! {

/// A query predicate for the master server.
///
/// Each variant is one filter kind; the kind, not the payload, decides which
/// slot of a filter group the filter takes.
#[derive(Debug, Clone, PartialEq, Eq)]
pub enum Filter {
    IsSecured(bool),
    RunsMap(String),
    CanHavePassword(bool),
    CanBeEmpty(bool),
    IsEmpty(bool),
    CanBeFull(bool),
    RunsAppID(u32),
    NotAppID(u32),
    HasTags(Vec<String>),
    MatchName(String),
    MatchVersion(String),
    /// Restrict to only a server if an IP hosts (on different ports) multiple servers.
    RestrictUniqueIP(bool),
    /// Query for servers on a specific address.
    OnAddress(String),
    Whitelisted(bool),
    SpectatorProxy(bool),
    IsDedicated(bool),
    RunsLinux(bool),
    HasGameDir(String),
}

/// Number of filter kinds, that is of variants of [`Filter`].
pub const FILTER_KINDS: usize = 18;

/// The byte `\`, which opens a key and separates it from its value.
pub const BACKSLASH: u8 = 92;

/// The byte `,`, which separates the tags of a tag list.
pub const COMMA: u8 = 44;

/// The ASCII digit that stands for a boolean.
pub open spec fn bool_byte(b: bool) -> u8 {
    if b { 49u8 } else { 48u8 }
}

/// The decimal ASCII digits of `n`, most significant first, without leading zeros.
pub open spec fn decimal(n: nat) -> Seq<u8>
    decreases n,
{
    if n < 10 {
        seq![(48 + n) as u8]
    } else {
        decimal(n / 10).push((48 + n % 10) as u8)
    }
}

/// The tags' UTF-8 bytes joined with commas, with no trailing comma.
pub open spec fn joined(tags: Seq<Seq<char>>) -> Seq<u8>
    decreases tags.len(),
{
    if tags.len() == 0 {
        Seq::empty()
    } else if tags.len() == 1 {
        encode_utf8(tags[0])
    } else {
        joined(tags.drop_last()) + seq![COMMA] + encode_utf8(tags.last())
    }
}

/// The characters of each tag.
pub open spec fn tags_view(tags: Seq<String>) -> Seq<Seq<char>> {
    tags.map_values(|t: String| t@)
}

/// A filter as a mathematical value: strings as character sequences.
pub enum FilterView {
    IsSecured(bool),
    RunsMap(Seq<char>),
    CanHavePassword(bool),
    CanBeEmpty(bool),
    IsEmpty(bool),
    CanBeFull(bool),
    RunsAppID(u32),
    NotAppID(u32),
    HasTags(Seq<Seq<char>>),
    MatchName(Seq<char>),
    MatchVersion(Seq<char>),
    RestrictUniqueIP(bool),
    OnAddress(Seq<char>),
    Whitelisted(bool),
    SpectatorProxy(bool),
    IsDedicated(bool),
    RunsLinux(bool),
    HasGameDir(Seq<char>),
}

impl View for Filter {
    type V = FilterView;

    open spec fn view(&self) -> FilterView {
        match self {
            Filter::IsSecured(b) => FilterView::IsSecured(*b),
            Filter::RunsMap(s) => FilterView::RunsMap(s@),
            Filter::CanHavePassword(b) => FilterView::CanHavePassword(*b),
            Filter::CanBeEmpty(b) => FilterView::CanBeEmpty(*b),
            Filter::IsEmpty(b) => FilterView::IsEmpty(*b),
            Filter::CanBeFull(b) => FilterView::CanBeFull(*b),
            Filter::RunsAppID(id) => FilterView::RunsAppID(*id),
            Filter::NotAppID(id) => FilterView::NotAppID(*id),
            Filter::HasTags(tags) => FilterView::HasTags(tags_view(tags@)),
            Filter::MatchName(s) => FilterView::MatchName(s@),
            Filter::MatchVersion(s) => FilterView::MatchVersion(s@),
            Filter::RestrictUniqueIP(b) => FilterView::RestrictUniqueIP(*b),
            Filter::OnAddress(s) => FilterView::OnAddress(s@),
            Filter::Whitelisted(b) => FilterView::Whitelisted(*b),
            Filter::SpectatorProxy(b) => FilterView::SpectatorProxy(*b),
            Filter::IsDedicated(b) => FilterView::IsDedicated(*b),
            Filter::RunsLinux(b) => FilterView::RunsLinux(*b),
            Filter::HasGameDir(s) => FilterView::HasGameDir(s@),
        }
    }
}

impl FilterView {
    /// The slot that a filter of this kind takes in a filter group.
    pub open spec fn kind(self) -> nat {
        match self {
            FilterView::IsSecured(_) => 0,
            FilterView::RunsMap(_) => 1,
            FilterView::CanHavePassword(_) => 2,
            FilterView::CanBeEmpty(_) => 3,
            FilterView::IsEmpty(_) => 4,
            FilterView::CanBeFull(_) => 5,
            FilterView::RunsAppID(_) => 6,
            FilterView::NotAppID(_) => 7,
            FilterView::HasTags(_) => 8,
            FilterView::MatchName(_) => 9,
            FilterView::MatchVersion(_) => 10,
            FilterView::RestrictUniqueIP(_) => 11,
            FilterView::OnAddress(_) => 12,
            FilterView::Whitelisted(_) => 13,
            FilterView::SpectatorProxy(_) => 14,
            FilterView::IsDedicated(_) => 15,
            FilterView::RunsLinux(_) => 16,
            FilterView::HasGameDir(_) => 17,
        }
    }

    /// The ASCII key that the master server knows this kind by.
    pub open spec fn key(self) -> &'static str {
        match self {
            FilterView::IsSecured(_) => "secure",
            FilterView::RunsMap(_) => "map",
            FilterView::CanHavePassword(_) => "password",
            FilterView::CanBeEmpty(_) => "empty",
            FilterView::IsEmpty(_) => "noplayers",
            FilterView::CanBeFull(_) => "full",
            FilterView::RunsAppID(_) => "appid",
            FilterView::NotAppID(_) => "napp",
            FilterView::HasTags(_) => "gametype",
            FilterView::MatchName(_) => "name_match",
            FilterView::MatchVersion(_) => "version_match",
            FilterView::RestrictUniqueIP(_) => "collapse_addr_hash",
            FilterView::OnAddress(_) => "gameaddr",
            FilterView::Whitelisted(_) => "white",
            FilterView::SpectatorProxy(_) => "proxy",
            FilterView::IsDedicated(_) => "dedicated",
            FilterView::RunsLinux(_) => "linux",
            FilterView::HasGameDir(_) => "gamedir",
        }
    }

    /// The boolean payload, for the kinds whose payload is a boolean.
    pub open spec fn flag(self) -> Option<bool> {
        match self {
            FilterView::IsSecured(b) => Some(b),
            FilterView::CanHavePassword(b) => Some(b),
            FilterView::CanBeEmpty(b) => Some(b),
            FilterView::IsEmpty(b) => Some(b),
            FilterView::CanBeFull(b) => Some(b),
            FilterView::RestrictUniqueIP(b) => Some(b),
            FilterView::Whitelisted(b) => Some(b),
            FilterView::SpectatorProxy(b) => Some(b),
            FilterView::IsDedicated(b) => Some(b),
            FilterView::RunsLinux(b) => Some(b),
            _ => None,
        }
    }

    /// The bytes that follow the key.
    pub open spec fn value(self) -> Seq<u8> {
        match self {
            FilterView::RunsAppID(id) => decimal(id as nat),
            FilterView::NotAppID(id) => decimal(id as nat),
            FilterView::HasTags(tags) => joined(tags),
            FilterView::RunsMap(s) => encode_utf8(s),
            FilterView::MatchName(s) => encode_utf8(s),
            FilterView::MatchVersion(s) => encode_utf8(s),
            FilterView::OnAddress(s) => encode_utf8(s),
            FilterView::HasGameDir(s) => encode_utf8(s),
            _ => seq![bool_byte(self.flag().unwrap())],
        }
    }

    /// The wire fragment `\key\value`; an empty tag list gives no bytes at all.
    pub open spec fn encode(self) -> Seq<u8> {
        match self {
            FilterView::HasTags(tags) if tags.len() == 0 => Seq::empty(),
            _ => seq![BACKSLASH] + encode_utf8(self.key()@) + seq![BACKSLASH] + self.value(),
        }
    }
}

/// The ASCII digit `'1'` for true and `'0'` for false.
pub fn bool_as_char_u8(b: bool) -> (r: u8)
    ensures
        r == bool_byte(b),
{
    if b {
        49
    } else {
        48
    }
}

/// Appends the decimal digits of `n`.
pub fn push_decimal(out: &mut Vec<u8>, n: u64)
    ensures
        final(out)@ == old(out)@ + decimal(n as nat),
    decreases n,
{
    if n >= 10 {
        push_decimal(out, n / 10);
    }
    let digit: u8 = (n % 10) as u8;
    out.push(48 + digit);
    assert(final(out)@ == old(out)@ + decimal(n as nat));
}

/// Appends the UTF-8 bytes of `s`.
fn push_str(out: &mut Vec<u8>, s: &str)
    ensures
        final(out)@ == old(out)@ + encode_utf8(s@),
{
    let bytes = s.as_bytes();
    let mut i: usize = 0;
    while i < bytes.len()
        invariant
            bytes@ == encode_utf8(s@),
            i <= bytes@.len(),
            out@ == old(out)@ + bytes@.subrange(0, i as int),
        decreases bytes@.len() - i,
    {
        out.push(bytes[i]);
        i = i + 1;
        assert(out@ =~= old(out)@ + bytes@.subrange(0, i as int));
    }
    assert(bytes@.subrange(0, i as int) =~= bytes@);
}

/// Appends the tags joined with commas.
fn push_joined(out: &mut Vec<u8>, tags: &Vec<String>)
    ensures
        final(out)@ == old(out)@ + joined(tags_view(tags@)),
{
    let mut i: usize = 0;
    while i < tags.len()
        invariant
            i <= tags@.len(),
            out@ == old(out)@ + joined(tags_view(tags@.subrange(0, i as int))),
        decreases tags@.len() - i,
    {
        let ghost before = out@;
        if i > 0 {
            out.push(COMMA);
        }
        push_str(out, tags[i].as_str());
        let ghost next = tags_view(tags@.subrange(0, i + 1));
        assert(next.drop_last() =~= tags_view(tags@.subrange(0, i as int)));
        if i == 0 {
            assert(joined(next) == encode_utf8(next[0]));
        }
        i = i + 1;
        assert(out@ =~= old(out)@ + joined(tags_view(tags@.subrange(0, i as int))));
    }
    assert(tags@.subrange(0, i as int) =~= tags@);
}

/// A copy of a tag list, equal to it.
fn copy_tags(tags: &Vec<String>) -> (r: Vec<String>)
    ensures
        tags_view(r@) == tags_view(tags@),
{
    let mut copy: Vec<String> = Vec::new();
    let mut i: usize = 0;
    while i < tags.len()
        invariant
            i <= tags@.len(),
            copy@.len() == i,
            forall|j: int| 0 <= j < i ==> (#[trigger] copy@[j])@ == tags@[j]@,
        decreases tags@.len() - i,
    {
        copy.push(tags[i].clone());
        i = i + 1;
    }
    assert(tags_view(copy@) =~= tags_view(tags@));
    copy
}

/// Whether two tag lists hold the same strings, one for one.
fn tags_equal(a: &Vec<String>, b: &Vec<String>) -> (r: bool)
    ensures
        r == (tags_view(a@) == tags_view(b@)),
{
    if a.len() != b.len() {
        assert(tags_view(a@).len() != tags_view(b@).len());
        return false;
    }
    let mut i: usize = 0;
    while i < a.len()
        invariant
            a@.len() == b@.len(),
            i <= a@.len(),
            forall|j: int| 0 <= j < i ==> (#[trigger] a@[j])@ == b@[j]@,
        decreases a@.len() - i,
    {
        if a[i] != b[i] {
            assert(tags_view(a@)[i as int] != tags_view(b@)[i as int]);
            return false;
        }
        i = i + 1;
    }
    assert(tags_view(a@) =~= tags_view(b@));
    true
}

impl Filter {
    /// The slot of this filter's kind.
    pub fn kind_index(&self) -> (r: usize)
        ensures
            r == self@.kind(),
            r < FILTER_KINDS,
    {
        match self {
            Filter::IsSecured(_) => 0,
            Filter::RunsMap(_) => 1,
            Filter::CanHavePassword(_) => 2,
            Filter::CanBeEmpty(_) => 3,
            Filter::IsEmpty(_) => 4,
            Filter::CanBeFull(_) => 5,
            Filter::RunsAppID(_) => 6,
            Filter::NotAppID(_) => 7,
            Filter::HasTags(_) => 8,
            Filter::MatchName(_) => 9,
            Filter::MatchVersion(_) => 10,
            Filter::RestrictUniqueIP(_) => 11,
            Filter::OnAddress(_) => 12,
            Filter::Whitelisted(_) => 13,
            Filter::SpectatorProxy(_) => 14,
            Filter::IsDedicated(_) => 15,
            Filter::RunsLinux(_) => 16,
            Filter::HasGameDir(_) => 17,
        }
    }

    /// The key of this filter's kind.
    pub fn keyword(&self) -> (r: &'static str)
        ensures
            r == self@.key(),
    {
        match self {
            Filter::IsSecured(_) => "secure",
            Filter::RunsMap(_) => "map",
            Filter::CanHavePassword(_) => "password",
            Filter::CanBeEmpty(_) => "empty",
            Filter::IsEmpty(_) => "noplayers",
            Filter::CanBeFull(_) => "full",
            Filter::RunsAppID(_) => "appid",
            Filter::NotAppID(_) => "napp",
            Filter::HasTags(_) => "gametype",
            Filter::MatchName(_) => "name_match",
            Filter::MatchVersion(_) => "version_match",
            Filter::RestrictUniqueIP(_) => "collapse_addr_hash",
            Filter::OnAddress(_) => "gameaddr",
            Filter::Whitelisted(_) => "white",
            Filter::SpectatorProxy(_) => "proxy",
            Filter::IsDedicated(_) => "dedicated",
            Filter::RunsLinux(_) => "linux",
            Filter::HasGameDir(_) => "gamedir",
        }
    }

    /// The wire fragment of this filter.
    pub fn to_bytes(&self) -> (r: Vec<u8>)
        ensures
            r@ == self@.encode(),
    {
        let mut bytes: Vec<u8> = Vec::new();
        if let Filter::HasTags(tags) = self {
            if tags.len() == 0 {
                return bytes;
            }
        }
        bytes.push(BACKSLASH);
        push_str(&mut bytes, self.keyword());
        bytes.push(BACKSLASH);
        match self {
            Filter::IsSecured(b) => bytes.push(bool_as_char_u8(*b)),
            Filter::CanHavePassword(b) => bytes.push(bool_as_char_u8(*b)),
            Filter::CanBeEmpty(b) => bytes.push(bool_as_char_u8(*b)),
            Filter::IsEmpty(b) => bytes.push(bool_as_char_u8(*b)),
            Filter::CanBeFull(b) => bytes.push(bool_as_char_u8(*b)),
            Filter::RestrictUniqueIP(b) => bytes.push(bool_as_char_u8(*b)),
            Filter::Whitelisted(b) => bytes.push(bool_as_char_u8(*b)),
            Filter::SpectatorProxy(b) => bytes.push(bool_as_char_u8(*b)),
            Filter::IsDedicated(b) => bytes.push(bool_as_char_u8(*b)),
            Filter::RunsLinux(b) => bytes.push(bool_as_char_u8(*b)),
            Filter::RunsAppID(id) => push_decimal(&mut bytes, *id as u64),
            Filter::NotAppID(id) => push_decimal(&mut bytes, *id as u64),
            Filter::HasTags(tags) => push_joined(&mut bytes, tags),
            Filter::RunsMap(s) => push_str(&mut bytes, s.as_str()),
            Filter::MatchName(s) => push_str(&mut bytes, s.as_str()),
            Filter::MatchVersion(s) => push_str(&mut bytes, s.as_str()),
            Filter::OnAddress(s) => push_str(&mut bytes, s.as_str()),
            Filter::HasGameDir(s) => push_str(&mut bytes, s.as_str()),
        }
        assert(bytes@ =~= self@.encode());
        bytes
    }

    /// A copy of this filter, equal to it.
    pub fn duplicate(&self) -> (r: Filter)
        ensures
            r@ == self@,
    {
        match self {
            Filter::IsSecured(b) => Filter::IsSecured(*b),
            Filter::CanHavePassword(b) => Filter::CanHavePassword(*b),
            Filter::CanBeEmpty(b) => Filter::CanBeEmpty(*b),
            Filter::IsEmpty(b) => Filter::IsEmpty(*b),
            Filter::CanBeFull(b) => Filter::CanBeFull(*b),
            Filter::RestrictUniqueIP(b) => Filter::RestrictUniqueIP(*b),
            Filter::Whitelisted(b) => Filter::Whitelisted(*b),
            Filter::SpectatorProxy(b) => Filter::SpectatorProxy(*b),
            Filter::IsDedicated(b) => Filter::IsDedicated(*b),
            Filter::RunsLinux(b) => Filter::RunsLinux(*b),
            Filter::RunsAppID(id) => Filter::RunsAppID(*id),
            Filter::NotAppID(id) => Filter::NotAppID(*id),
            Filter::HasTags(tags) => Filter::HasTags(copy_tags(tags)),
            Filter::RunsMap(s) => Filter::RunsMap(s.clone()),
            Filter::MatchName(s) => Filter::MatchName(s.clone()),
            Filter::MatchVersion(s) => Filter::MatchVersion(s.clone()),
            Filter::OnAddress(s) => Filter::OnAddress(s.clone()),
            Filter::HasGameDir(s) => Filter::HasGameDir(s.clone()),
        }
    }

    /// Whether two filters are of one kind and hold the same payload.
    pub fn same_as(&self, other: &Filter) -> (r: bool)
        ensures
            r == (self@ == other@),
    {
        match (self, other) {
            (Filter::IsSecured(a), Filter::IsSecured(b)) => *a == *b,
            (Filter::CanHavePassword(a), Filter::CanHavePassword(b)) => *a == *b,
            (Filter::CanBeEmpty(a), Filter::CanBeEmpty(b)) => *a == *b,
            (Filter::IsEmpty(a), Filter::IsEmpty(b)) => *a == *b,
            (Filter::CanBeFull(a), Filter::CanBeFull(b)) => *a == *b,
            (Filter::RestrictUniqueIP(a), Filter::RestrictUniqueIP(b)) => *a == *b,
            (Filter::Whitelisted(a), Filter::Whitelisted(b)) => *a == *b,
            (Filter::SpectatorProxy(a), Filter::SpectatorProxy(b)) => *a == *b,
            (Filter::IsDedicated(a), Filter::IsDedicated(b)) => *a == *b,
            (Filter::RunsLinux(a), Filter::RunsLinux(b)) => *a == *b,
            (Filter::RunsAppID(a), Filter::RunsAppID(b)) => *a == *b,
            (Filter::NotAppID(a), Filter::NotAppID(b)) => *a == *b,
            (Filter::HasTags(a), Filter::HasTags(b)) => tags_equal(a, b),
            (Filter::RunsMap(a), Filter::RunsMap(b)) => *a == *b,
            (Filter::MatchName(a), Filter::MatchName(b)) => *a == *b,
            (Filter::MatchVersion(a), Filter::MatchVersion(b)) => *a == *b,
            (Filter::OnAddress(a), Filter::OnAddress(b)) => *a == *b,
            (Filter::HasGameDir(a), Filter::HasGameDir(b)) => *a == *b,
            _ => false,
        }
    }
}

/// Encoding is a function of the filter's value: two filters with equal
/// values encode to the same bytes, so encoding one filter twice does too.
pub proof fn encoding_is_pure(f: Filter, g: Filter)
    requires
        f@ == g@,
    ensures
        f@.encode() == g@.encode(),
{
}

/// A boolean filter's value is the single ASCII digit `'1'` or `'0'`, never
/// the raw byte 1 or 0, and it closes the fragment.
pub proof fn flag_encodes_as_ascii_digit(f: FilterView)
    requires
        f.flag() is Some,
    ensures
        f.value() == seq![bool_byte(f.flag().unwrap())],
        f.encode().last() == bool_byte(f.flag().unwrap()),
        f.encode().last() == 48 || f.encode().last() == 49,
        f.encode().last() != 0 && f.encode().last() != 1,
{
}

} // verus!
