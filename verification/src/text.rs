//! Text as sequences of characters: paths and their segments, blanks and
//! trimming, searching for a piece of text, and decimal numbers.

use vstd::prelude::*;

verus! {

/// `String::push` appends one character.
pub assume_specification[ String::push ](s: &mut String, c: char)
    ensures
        final(s)@ == old(s)@.push(c),
;

/// `String::pop` removes the last character and returns it, or returns `None`
/// and leaves an empty string as it is.
pub assume_specification[ String::pop ](s: &mut String) -> (r: Option<char>)
    ensures
        old(s)@.len() == 0 ==> r.is_none() && final(s)@ == old(s)@,
        old(s)@.len() > 0 ==> r == Some(old(s)@.last()) && final(s)@ == old(s)@.drop_last(),
;

/// `String::clear` removes every character.
pub assume_specification[ String::clear ](s: &mut String)
    ensures
        final(s)@ == Seq::<char>::empty(),
;

/// The character that separates the segments of a path.
pub open spec fn separator() -> char {
    '/'
}

/// Whether the path has more than one segment.
pub open spec fn has_separator(path: Seq<char>) -> bool {
    path.contains(separator())
}

/// Whether `i` is the place of the last `c` in `s`.
pub open spec fn is_last_index_of(s: Seq<char>, c: char, i: int) -> bool {
    &&& 0 <= i < s.len()
    &&& s[i] == c
    &&& forall|j: int| i < j < s.len() ==> s[j] != c
}

/// Whether `i` is the place of the first `c` in `s`.
pub open spec fn is_first_index_of(s: Seq<char>, c: char, i: int) -> bool {
    &&& 0 <= i < s.len()
    &&& s[i] == c
    &&& forall|j: int| 0 <= j < i ==> s[j] != c
}

/// The place of the last `c` in `s`.
pub open spec fn last_index_of(s: Seq<char>, c: char) -> Option<int> {
    if exists|i: int| is_last_index_of(s, c, i) {
        Some(choose|i: int| is_last_index_of(s, c, i))
    } else {
        None
    }
}

/// The place of the first `c` in `s`.
pub open spec fn first_index_of(s: Seq<char>, c: char) -> Option<int> {
    if exists|i: int| is_first_index_of(s, c, i) {
        Some(choose|i: int| is_first_index_of(s, c, i))
    } else {
        None
    }
}

/// Everything before the last separator; the empty path (the root) where
/// there is none.
pub open spec fn parent_path(path: Seq<char>) -> Seq<char> {
    match last_index_of(path, separator()) {
        Some(i) => path.take(i),
        None => Seq::empty(),
    }
}

/// Everything after the last separator; the whole path where there is none.
pub open spec fn leaf_name(path: Seq<char>) -> Seq<char> {
    match last_index_of(path, separator()) {
        Some(i) => path.skip(i + 1),
        None => path,
    }
}

/// Everything before the first separator; the whole path where there is none.
pub open spec fn first_segment(path: Seq<char>) -> Seq<char> {
    match first_index_of(path, separator()) {
        Some(i) => path.take(i),
        None => path,
    }
}

/// The characters with the Unicode property White_Space.
pub open spec fn is_space(c: char) -> bool {
    let n = c as u32;
    ||| 0x09 <= n <= 0x0D
    ||| n == 0x20
    ||| n == 0x85
    ||| n == 0xA0
    ||| n == 0x1680
    ||| 0x2000 <= n <= 0x200A
    ||| n == 0x2028
    ||| n == 0x2029
    ||| n == 0x202F
    ||| n == 0x205F
    ||| n == 0x3000
}

/// Whether the text holds nothing but white space.
pub open spec fn is_blank(s: Seq<char>) -> bool {
    forall|i: int| 0 <= i < s.len() ==> is_space(#[trigger] s[i])
}

/// The text without its leading white space.
pub open spec fn trim_start(s: Seq<char>) -> Seq<char>
    decreases s.len(),
{
    if s.len() > 0 && is_space(s.first()) {
        trim_start(s.drop_first())
    } else {
        s
    }
}

/// The text without its trailing white space.
pub open spec fn trim_end(s: Seq<char>) -> Seq<char>
    decreases s.len(),
{
    if s.len() > 0 && is_space(s.last()) {
        trim_end(s.drop_last())
    } else {
        s
    }
}

/// The text without leading and trailing white space.
pub open spec fn trim(s: Seq<char>) -> Seq<char> {
    trim_end(trim_start(s))
}

/// Whether `needle` stands in `hay` at place `i`.
pub open spec fn occurs_at(hay: Seq<char>, needle: Seq<char>, i: int) -> bool {
    &&& 0 <= i
    &&& i + needle.len() <= hay.len()
    &&& hay.subrange(i, i + needle.len()) == needle
}

/// Whether `i` is the first place at which `needle` stands in `hay`.
pub open spec fn is_first_occurrence(hay: Seq<char>, needle: Seq<char>, i: int) -> bool {
    &&& occurs_at(hay, needle, i)
    &&& forall|j: int| 0 <= j < i ==> !occurs_at(hay, needle, j)
}

/// The first place at which `needle` stands in `hay`.
pub open spec fn first_occurrence(hay: Seq<char>, needle: Seq<char>) -> Option<int> {
    if exists|i: int| is_first_occurrence(hay, needle, i) {
        Some(choose|i: int| is_first_occurrence(hay, needle, i))
    } else {
        None
    }
}

/// The character of one decimal digit.
pub open spec fn digit_char(d: int) -> char {
    if d == 0 {
        '0'
    } else if d == 1 {
        '1'
    } else if d == 2 {
        '2'
    } else if d == 3 {
        '3'
    } else if d == 4 {
        '4'
    } else if d == 5 {
        '5'
    } else if d == 6 {
        '6'
    } else if d == 7 {
        '7'
    } else if d == 8 {
        '8'
    } else {
        '9'
    }
}

/// A natural number written in decimal, without leading zeros.
pub open spec fn decimal(n: nat) -> Seq<char>
    decreases n,
{
    if n < 10 {
        seq![digit_char(n as int)]
    } else {
        decimal(n / 10).push(digit_char((n % 10) as int))
    }
}

/// An integer written in decimal, with `-` before a negative one.
pub open spec fn signed_decimal(n: int) -> Seq<char> {
    if n < 0 {
        seq!['-'] + decimal((-n) as nat)
    } else {
        decimal(n as nat)
    }
}

/// At most one place is the last place of `c`.
pub proof fn lemma_last_index_unique(s: Seq<char>, c: char, i: int)
    requires
        is_last_index_of(s, c, i),
    ensures
        last_index_of(s, c) == Some(i),
{
    let k = choose|k: int| is_last_index_of(s, c, k);
    assert(is_last_index_of(s, c, k));
    if k < i {
        assert(s[i] != c);
    } else if i < k {
        assert(s[k] != c);
    }
}

/// At most one place is the first place of `c`.
pub proof fn lemma_first_index_unique(s: Seq<char>, c: char, i: int)
    requires
        is_first_index_of(s, c, i),
    ensures
        first_index_of(s, c) == Some(i),
{
    let k = choose|k: int| is_first_index_of(s, c, k);
    assert(is_first_index_of(s, c, k));
    if k < i {
        assert(s[k] != c);
    } else if i < k {
        assert(s[i] != c);
    }
}

/// A text without `c` has no last place of it.
pub proof fn lemma_no_index(s: Seq<char>, c: char)
    requires
        !s.contains(c),
    ensures
        last_index_of(s, c).is_none(),
        first_index_of(s, c).is_none(),
{
    assert forall|i: int| !is_last_index_of(s, c, i) by {
        if is_last_index_of(s, c, i) {
            assert(s.contains(c));
        }
    }
    assert forall|i: int| !is_first_index_of(s, c, i) by {
        if is_first_index_of(s, c, i) {
            assert(s.contains(c));
        }
    }
}

/// At most one place is the first occurrence of a text.
pub proof fn lemma_first_occurrence_unique(hay: Seq<char>, needle: Seq<char>, i: int)
    requires
        is_first_occurrence(hay, needle, i),
    ensures
        first_occurrence(hay, needle) == Some(i),
{
    let k = choose|k: int| is_first_occurrence(hay, needle, k);
    assert(is_first_occurrence(hay, needle, k));
    if k < i {
        assert(!occurs_at(hay, needle, k));
    } else if i < k {
        assert(!occurs_at(hay, needle, i));
    }
}

/// A path with a separator is its parent, the separator and its leaf.
pub proof fn law_a_path_joins_its_parts(path: Seq<char>)
    requires
        has_separator(path),
    ensures
        parent_path(path) + seq![separator()] + leaf_name(path) == path,
        !has_separator(leaf_name(path)),
{
    lemma_has_last_index(path, separator());
    let i = last_index_of(path, separator()).unwrap();
    assert(is_last_index_of(path, separator(), i));
    assert(path.take(i) + seq![separator()] + path.skip(i + 1) =~= path);
    let leaf = path.skip(i + 1);
    assert forall|j: int| 0 <= j < leaf.len() implies leaf[j] != separator() by {
        assert(leaf[j] == path[i + 1 + j]);
    }
}

/// A text that holds `c` has a last place of it.
pub proof fn lemma_has_last_index(s: Seq<char>, c: char)
    requires
        s.contains(c),
    ensures
        last_index_of(s, c).is_some(),
        is_last_index_of(s, c, last_index_of(s, c).unwrap()),
    decreases s.len(),
{
    if s.last() == c {
        assert(is_last_index_of(s, c, s.len() - 1));
    } else {
        let k = choose|k: int| 0 <= k < s.len() && s[k] == c;
        assert(s.drop_last()[k] == c);
        lemma_has_last_index(s.drop_last(), c);
        let i = last_index_of(s.drop_last(), c).unwrap();
        assert(s.drop_last()[i] == s[i]);
        assert forall|j: int| i < j < s.len() implies s[j] != c by {
            if j < s.len() - 1 {
                assert(s.drop_last()[j] == s[j]);
            }
        }
        assert(is_last_index_of(s, c, i));
    }
    let w = choose|w: int| is_last_index_of(s, c, w);
    assert(is_last_index_of(s, c, w));
}

/// A blank text trims to nothing, and only a blank text does.
pub proof fn law_blank_text_trims_to_nothing(s: Seq<char>)
    ensures
        is_blank(s) <==> trim(s).len() == 0,
    decreases s.len(),
{
    lemma_trim_start_shape(s);
    let a = leading_spaces(s);
    let t = trim_start(s);
    lemma_trim_end_shape(t);
    if is_blank(s) {
        if a < s.len() {
            assert(is_space(s[a]));
        }
        assert(t.len() == 0);
    }
    if trim(s).len() == 0 {
        let b = trailing_spaces(t);
        assert(t.len() == b);
        if t.len() > 0 {
            assert(!is_space(t.first()));
            assert(is_space(t[t.len() - b]));
        }
        assert(a == s.len());
        assert forall|i: int| 0 <= i < s.len() implies is_space(#[trigger] s[i]) by {}
    }
}

/// How many characters of white space the text begins with.
pub open spec fn leading_spaces(s: Seq<char>) -> int
    decreases s.len(),
{
    if s.len() > 0 && is_space(s.first()) {
        1 + leading_spaces(s.drop_first())
    } else {
        0
    }
}

/// How many characters of white space the text ends with.
pub open spec fn trailing_spaces(s: Seq<char>) -> int
    decreases s.len(),
{
    if s.len() > 0 && is_space(s.last()) {
        1 + trailing_spaces(s.drop_last())
    } else {
        0
    }
}

/// `trim_start` drops exactly the leading white space.
pub proof fn lemma_trim_start_shape(s: Seq<char>)
    ensures
        0 <= leading_spaces(s) <= s.len(),
        trim_start(s) == s.skip(leading_spaces(s)),
        forall|i: int| 0 <= i < leading_spaces(s) ==> is_space(#[trigger] s[i]),
        leading_spaces(s) < s.len() ==> !is_space(s[leading_spaces(s)]),
    decreases s.len(),
{
    if s.len() > 0 && is_space(s.first()) {
        let r = s.drop_first();
        lemma_trim_start_shape(r);
        let a = leading_spaces(r);
        assert(r.skip(a) =~= s.skip(a + 1));
        assert forall|i: int| 0 <= i < a + 1 implies is_space(#[trigger] s[i]) by {
            if i > 0 {
                assert(s[i] == r[i - 1]);
            }
        }
        if a + 1 < s.len() {
            assert(s[a + 1] == r[a]);
        }
    } else {
        assert(s.skip(0) =~= s);
    }
}

/// `trim_end` drops exactly the trailing white space.
pub proof fn lemma_trim_end_shape(s: Seq<char>)
    ensures
        0 <= trailing_spaces(s) <= s.len(),
        trim_end(s) == s.take(s.len() - trailing_spaces(s)),
        forall|i: int| s.len() - trailing_spaces(s) <= i < s.len() ==> is_space(#[trigger] s[i]),
        trailing_spaces(s) < s.len() ==> !is_space(s[s.len() - trailing_spaces(s) - 1]),
    decreases s.len(),
{
    if s.len() > 0 && is_space(s.last()) {
        let r = s.drop_last();
        lemma_trim_end_shape(r);
        let b = trailing_spaces(r);
        assert(r.take(r.len() - b) =~= s.take(s.len() - (b + 1)));
        assert forall|i: int| s.len() - (b + 1) <= i < s.len() implies is_space(
            #[trigger] s[i],
        ) by {
            if i < s.len() - 1 {
                assert(s[i] == r[i]);
            }
        }
        if b + 1 < s.len() {
            assert(s[s.len() - (b + 1) - 1] == r[r.len() - b - 1]);
        }
    } else {
        assert(s.take(s.len() as int) =~= s);
    }
}

/// The characters of a text, one by one.
pub fn to_chars(s: &str) -> (v: Vec<char>)
    ensures
        v@ == s@,
{
    let mut v: Vec<char> = Vec::new();
    for x in it: s.chars()
        invariant
            it.seq() == s@,
            v@ == s@.take(it.index() as int),
    {
        v.push(x);
    }
    v
}

/// The text made of the characters `v[from..to]`.
pub fn text_of(v: &Vec<char>, from: usize, to: usize) -> (s: String)
    requires
        from <= to <= v.len(),
    ensures
        s@ == v@.subrange(from as int, to as int),
{
    let mut s = String::new();
    let mut i: usize = from;
    while i < to
        invariant
            from <= i <= to <= v.len(),
            s@ == v@.subrange(from as int, i as int),
        decreases to - i,
    {
        s.push(v[i]);
        assert(v@.subrange(from as int, i + 1) =~= v@.subrange(from as int, i as int).push(
            v@[i as int],
        ));
        i += 1;
    }
    s
}

/// Whether two texts hold the same characters.
pub fn same_text(a: &str, b: &str) -> (r: bool)
    ensures
        r == (a@ == b@),
{
    let x = to_chars(a);
    let y = to_chars(b);
    if x.len() != y.len() {
        return false;
    }
    let mut i: usize = 0;
    while i < x.len()
        invariant
            x@ == a@,
            y@ == b@,
            x.len() == y.len(),
            i <= x.len(),
            x@.take(i as int) == y@.take(i as int),
        decreases x.len() - i,
    {
        if x[i] != y[i] {
            assert(a@[i as int] != b@[i as int]);
            return false;
        }
        assert(x@.take(i + 1) =~= x@.take(i as int).push(x@[i as int]));
        assert(y@.take(i + 1) =~= y@.take(i as int).push(y@[i as int]));
        i += 1;
    }
    assert(x@.take(x.len() as int) =~= x@);
    assert(y@.take(y.len() as int) =~= y@);
    true
}

/// The place of the last `c` among the characters.
pub fn find_last(v: &Vec<char>, c: char) -> (r: Option<usize>)
    ensures
        match r {
            Some(i) => last_index_of(v@, c) == Some(i as int) && is_last_index_of(v@, c, i as int),
            None => last_index_of(v@, c).is_none() && !v@.contains(c),
        },
{
    let mut i: usize = v.len();
    while i > 0
        invariant
            i <= v.len(),
            forall|j: int| i <= j < v.len() ==> v@[j] != c,
        decreases i,
    {
        i -= 1;
        if v[i] == c {
            proof {
                lemma_last_index_unique(v@, c, i as int);
            }
            return Some(i);
        }
    }
    proof {
        lemma_no_index(v@, c);
    }
    None
}

/// The place of the first `c` among the characters.
pub fn find_first(v: &Vec<char>, c: char) -> (r: Option<usize>)
    ensures
        match r {
            Some(i) => first_index_of(v@, c) == Some(i as int) && is_first_index_of(
                v@,
                c,
                i as int,
            ),
            None => first_index_of(v@, c).is_none() && !v@.contains(c),
        },
{
    let mut i: usize = 0;
    while i < v.len()
        invariant
            i <= v.len(),
            forall|j: int| 0 <= j < i ==> v@[j] != c,
        decreases v.len() - i,
    {
        if v[i] == c {
            proof {
                lemma_first_index_unique(v@, c, i as int);
            }
            return Some(i);
        }
        i += 1;
    }
    proof {
        lemma_no_index(v@, c);
    }
    None
}

/// Whether the path has more than one segment.
pub fn contains_separator(path: &str) -> (r: bool)
    ensures
        r == has_separator(path@),
{
    let v = to_chars(path);
    find_first(&v, '/').is_some()
}

/// The path of the folder that holds `path`.
pub fn parent_of(path: &str) -> (r: String)
    ensures
        r@ == parent_path(path@),
{
    let v = to_chars(path);
    match find_last(&v, '/') {
        Some(i) => {
            let r = text_of(&v, 0, i);
            assert(v@.subrange(0, i as int) =~= v@.take(i as int));
            r
        },
        None => String::new(),
    }
}

/// The last segment of `path`.
pub fn leaf_of(path: &str) -> (r: String)
    ensures
        r@ == leaf_name(path@),
{
    let v = to_chars(path);
    let n = v.len();
    match find_last(&v, '/') {
        Some(i) => {
            let r = text_of(&v, i + 1, n);
            assert(v@.subrange(i + 1, v.len() as int) =~= v@.skip(i + 1));
            r
        },
        None => {
            let r = text_of(&v, 0, v.len());
            assert(v@.subrange(0, v.len() as int) =~= v@);
            r
        },
    }
}

/// The first segment of `path`.
pub fn first_segment_of(path: &str) -> (r: String)
    ensures
        r@ == first_segment(path@),
{
    let v = to_chars(path);
    match find_first(&v, '/') {
        Some(i) => {
            let r = text_of(&v, 0, i);
            assert(v@.subrange(0, i as int) =~= v@.take(i as int));
            r
        },
        None => {
            let r = text_of(&v, 0, v.len());
            assert(v@.subrange(0, v.len() as int) =~= v@);
            r
        },
    }
}

/// Whether the character is white space.
pub fn is_space_char(c: char) -> (r: bool)
    ensures
        r == is_space(c),
{
    let n: u32 = c as u32;
    (0x09 <= n && n <= 0x0D) || n == 0x20 || n == 0x85 || n == 0xA0 || n == 0x1680 || (0x2000 <= n
        && n <= 0x200A) || n == 0x2028 || n == 0x2029 || n == 0x202F || n == 0x205F || n == 0x3000
}

/// Whether the text holds nothing but white space.
pub fn is_blank_text(s: &str) -> (r: bool)
    ensures
        r == is_blank(s@),
{
    let v = to_chars(s);
    let mut i: usize = 0;
    while i < v.len()
        invariant
            v@ == s@,
            i <= v.len(),
            forall|j: int| 0 <= j < i ==> is_space(#[trigger] v@[j]),
        decreases v.len() - i,
    {
        if !is_space_char(v[i]) {
            return false;
        }
        i += 1;
    }
    true
}

/// The characters `v[from..to]` without leading and trailing white space.
pub fn trimmed(v: &Vec<char>, from: usize, to: usize) -> (r: String)
    requires
        from <= to <= v.len(),
    ensures
        r@ == trim(v@.subrange(from as int, to as int)),
{
    let ghost s = v@.subrange(from as int, to as int);
    let mut a: usize = from;
    assert(s.skip(0) =~= s);
    while a < to && is_space_char(v[a])
        invariant
            from <= a <= to <= v.len(),
            s == v@.subrange(from as int, to as int),
            trim_start(s) == trim_start(s.skip(a - from)),
        decreases to - a,
    {
        proof {
            let t = s.skip(a - from);
            assert(t.first() == v@[a as int]);
            assert(t.drop_first() =~= s.skip(a + 1 - from));
        }
        a += 1;
    }
    proof {
        let t = s.skip(a - from);
        if a < to {
            assert(t.first() == v@[a as int]);
        }
        assert(trim_start(s) == t);
    }
    let ghost t = s.skip(a - from);
    let mut b: usize = to;
    assert(t.take(to - a) =~= t);
    while b > a && is_space_char(v[b - 1])
        invariant
            from <= a <= b <= to <= v.len(),
            s == v@.subrange(from as int, to as int),
            t == s.skip(a - from),
            trim_end(t) == trim_end(t.take(b - a)),
        decreases b - a,
    {
        proof {
            let u = t.take(b - a);
            assert(u.last() == v@[b - 1]);
            assert(u.drop_last() =~= t.take(b - 1 - a));
        }
        b -= 1;
    }
    proof {
        let u = t.take(b - a);
        if b > a {
            assert(u.last() == v@[b - 1]);
        }
        assert(trim_end(t) == u);
        assert(u =~= v@.subrange(a as int, b as int));
    }
    text_of(v, a, b)
}

/// The first place at or after `from` at which `needle` stands in the
/// characters `hay[from..]`, counted from `from`.
pub fn find_text(hay: &Vec<char>, from: usize, needle: &Vec<char>) -> (r: Option<usize>)
    requires
        from <= hay.len(),
    ensures
        match r {
            Some(i) => first_occurrence(hay@.skip(from as int), needle@) == Some(i as int)
                && from + i + needle.len() <= hay.len(),
            None => first_occurrence(hay@.skip(from as int), needle@).is_none(),
        },
{
    let ghost h = hay@.skip(from as int);
    if needle.len() > hay.len() - from {
        assert forall|i: int| !is_first_occurrence(h, needle@, i) by {}
        return None;
    }
    let last: usize = hay.len() - from - needle.len();
    let mut i: usize = 0;
    while i <= last
        invariant
            from <= hay.len(),
            h == hay@.skip(from as int),
            last == hay.len() - from - needle.len(),
            i <= last + 1,
            forall|j: int| 0 <= j < i ==> !occurs_at(h, needle@, j),
        decreases last + 1 - i,
    {
        let mut k: usize = 0;
        while k < needle.len() && hay[from + i + k] == needle[k]
            invariant
                from <= hay.len(),
                h == hay@.skip(from as int),
                last == hay.len() - from - needle.len(),
                i <= last,
                k <= needle.len(),
                forall|m: int| 0 <= m < k ==> h[i + m] == needle@[m],
            decreases needle.len() - k,
        {
            k += 1;
        }
        if k == needle.len() {
            proof {
                assert(h.subrange(i as int, i + needle.len()) =~= needle@);
                lemma_first_occurrence_unique(h, needle@, i as int);
            }
            return Some(i);
        }
        proof {
            assert(h[i + k] != needle@[k as int]);
            if occurs_at(h, needle@, i as int) {
                assert(h.subrange(i as int, i + needle.len())[k as int] == h[i + k]);
            }
        }
        i += 1;
    }
    assert forall|j: int| !is_first_occurrence(h, needle@, j) by {}
    None
}

/// Appends one decimal digit.
fn push_digit(out: &mut String, d: u64)
    requires
        d < 10,
    ensures
        final(out)@ == old(out)@.push(digit_char(d as int)),
{
    let c = if d == 0 {
        '0'
    } else if d == 1 {
        '1'
    } else if d == 2 {
        '2'
    } else if d == 3 {
        '3'
    } else if d == 4 {
        '4'
    } else if d == 5 {
        '5'
    } else if d == 6 {
        '6'
    } else if d == 7 {
        '7'
    } else if d == 8 {
        '8'
    } else {
        '9'
    };
    out.push(c);
}

/// Appends a number in decimal.
pub fn push_decimal(out: &mut String, n: u64)
    ensures
        final(out)@ == old(out)@ + decimal(n as nat),
    decreases n,
{
    if n < 10 {
        push_digit(out, n);
        assert(old(out)@.push(digit_char(n as int)) =~= old(out)@ + decimal(n as nat));
    } else {
        push_decimal(out, n / 10);
        push_digit(out, n % 10);
        assert((old(out)@ + decimal((n / 10) as nat)).push(digit_char((n % 10) as int)) =~= old(
            out,
        )@ + decimal(n as nat));
    }
}

/// Appends a signed number in decimal.
pub fn push_signed_decimal(out: &mut String, n: i32)
    ensures
        final(out)@ == old(out)@ + signed_decimal(n as int),
{
    if n < 0 {
        out.push('-');
        let magnitude: u64 = (0 - (n as i64)) as u64;
        push_decimal(out, magnitude);
        assert(old(out)@.push('-') + decimal(magnitude as nat) =~= old(out)@ + signed_decimal(
            n as int,
        ));
    } else {
        push_decimal(out, n as u64);
    }
}

/// Appends a text.
pub fn push_text(out: &mut String, s: &str)
    ensures
        final(out)@ == old(out)@ + s@,
{
    for x in it: s.chars()
        invariant
            it.seq() == s@,
            out@ == old(out)@ + s@.take(it.index() as int),
    {
        out.push(x);
        assert(old(out)@ + s@.take(it.index() + 1) =~= (old(out)@ + s@.take(it.index() as int)).push(
            x,
        ));
    }
    assert(s@.take(s@.len() as int) =~= s@);
}

} // verus!
