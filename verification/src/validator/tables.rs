//! The tables of Vietnamese syllable parts and the search through them.
use vstd::prelude::*;

verus! {

/// Syllable onsets (initial consonant clusters), in the order in which they are tried.
#[derive(Debug, Clone, Copy, PartialEq, Eq, Structural)]
pub enum Onset {
    /// `ngh`
    Ngh,
    /// `gh`
    Gh,
    /// `gi`
    Gi,
    /// `ng`
    Ng,
    /// `nh`
    Nh,
    /// `ph`
    Ph,
    /// `th`
    Th,
    /// `tr`
    Tr,
    /// `ch`
    Ch,
    /// `kh`
    Kh,
    /// `qu`
    Qu,
    /// `b`
    B,
    /// `c`
    C,
    /// `d`
    D,
    /// `đ`
    DStroke,
    /// `g`
    G,
    /// `h`
    H,
    /// `k`
    K,
    /// `l`
    L,
    /// `m`
    M,
    /// `n`
    N,
    /// `p`
    P,
    /// `r`
    R,
    /// `s`
    S,
    /// `t`
    T,
    /// `v`
    V,
    /// `x`
    X,
}

impl Onset {
    /// The letters this part is written with.
    pub open spec fn text(self) -> Seq<char> {
        match self {
            Onset::Ngh => seq!['n', 'g', 'h'],
            Onset::Gh => seq!['g', 'h'],
            Onset::Gi => seq!['g', 'i'],
            Onset::Ng => seq!['n', 'g'],
            Onset::Nh => seq!['n', 'h'],
            Onset::Ph => seq!['p', 'h'],
            Onset::Th => seq!['t', 'h'],
            Onset::Tr => seq!['t', 'r'],
            Onset::Ch => seq!['c', 'h'],
            Onset::Kh => seq!['k', 'h'],
            Onset::Qu => seq!['q', 'u'],
            Onset::B => seq!['b'],
            Onset::C => seq!['c'],
            Onset::D => seq!['d'],
            Onset::DStroke => seq!['đ'],
            Onset::G => seq!['g'],
            Onset::H => seq!['h'],
            Onset::K => seq!['k'],
            Onset::L => seq!['l'],
            Onset::M => seq!['m'],
            Onset::N => seq!['n'],
            Onset::P => seq!['p'],
            Onset::R => seq!['r'],
            Onset::S => seq!['s'],
            Onset::T => seq!['t'],
            Onset::V => seq!['v'],
            Onset::X => seq!['x'],
        }
    }

    /// The letters this part is written with.
    pub fn chars(self) -> (r: Vec<char>)
        ensures
            r@ == self.text(),
    {
        match self {
            Onset::Ngh => vec!['n', 'g', 'h'],
            Onset::Gh => vec!['g', 'h'],
            Onset::Gi => vec!['g', 'i'],
            Onset::Ng => vec!['n', 'g'],
            Onset::Nh => vec!['n', 'h'],
            Onset::Ph => vec!['p', 'h'],
            Onset::Th => vec!['t', 'h'],
            Onset::Tr => vec!['t', 'r'],
            Onset::Ch => vec!['c', 'h'],
            Onset::Kh => vec!['k', 'h'],
            Onset::Qu => vec!['q', 'u'],
            Onset::B => vec!['b'],
            Onset::C => vec!['c'],
            Onset::D => vec!['d'],
            Onset::DStroke => vec!['đ'],
            Onset::G => vec!['g'],
            Onset::H => vec!['h'],
            Onset::K => vec!['k'],
            Onset::L => vec!['l'],
            Onset::M => vec!['m'],
            Onset::N => vec!['n'],
            Onset::P => vec!['p'],
            Onset::R => vec!['r'],
            Onset::S => vec!['s'],
            Onset::T => vec!['t'],
            Onset::V => vec!['v'],
            Onset::X => vec!['x'],
        }
    }
}

/// The `i`-th entry of the onset table.
pub open spec fn onset_at(i: int) -> Onset {
    if i == 0 {
        Onset::Ngh
    }
    else if i == 1 {
        Onset::Gh
    }
    else if i == 2 {
        Onset::Gi
    }
    else if i == 3 {
        Onset::Ng
    }
    else if i == 4 {
        Onset::Nh
    }
    else if i == 5 {
        Onset::Ph
    }
    else if i == 6 {
        Onset::Th
    }
    else if i == 7 {
        Onset::Tr
    }
    else if i == 8 {
        Onset::Ch
    }
    else if i == 9 {
        Onset::Kh
    }
    else if i == 10 {
        Onset::Qu
    }
    else if i == 11 {
        Onset::B
    }
    else if i == 12 {
        Onset::C
    }
    else if i == 13 {
        Onset::D
    }
    else if i == 14 {
        Onset::DStroke
    }
    else if i == 15 {
        Onset::G
    }
    else if i == 16 {
        Onset::H
    }
    else if i == 17 {
        Onset::K
    }
    else if i == 18 {
        Onset::L
    }
    else if i == 19 {
        Onset::M
    }
    else if i == 20 {
        Onset::N
    }
    else if i == 21 {
        Onset::P
    }
    else if i == 22 {
        Onset::R
    }
    else if i == 23 {
        Onset::S
    }
    else if i == 24 {
        Onset::T
    }
    else if i == 25 {
        Onset::V
    }
    else {
        Onset::X
    }
}

/// Number of entries in the onset table.
pub const ONSET_COUNT: usize = 27;

fn onset_at_exec(i: usize) -> (r: Onset)
    requires
        i < ONSET_COUNT,
    ensures
        r == onset_at(i as int),
{
    match i {
        0 => Onset::Ngh,
        1 => Onset::Gh,
        2 => Onset::Gi,
        3 => Onset::Ng,
        4 => Onset::Nh,
        5 => Onset::Ph,
        6 => Onset::Th,
        7 => Onset::Tr,
        8 => Onset::Ch,
        9 => Onset::Kh,
        10 => Onset::Qu,
        11 => Onset::B,
        12 => Onset::C,
        13 => Onset::D,
        14 => Onset::DStroke,
        15 => Onset::G,
        16 => Onset::H,
        17 => Onset::K,
        18 => Onset::L,
        19 => Onset::M,
        20 => Onset::N,
        21 => Onset::P,
        22 => Onset::R,
        23 => Onset::S,
        24 => Onset::T,
        25 => Onset::V,
        _ => Onset::X,
    }
}

/// Syllable nuclei (vowel clusters), in the order in which they are tried.
#[derive(Debug, Clone, Copy, PartialEq, Eq, Structural)]
pub enum Nucleus {
    /// `uyê`
    UYECirc,
    /// `uya`
    UYA,
    /// `uyu`
    UYU,
    /// `oai`
    OAI,
    /// `oay`
    OAY,
    /// `oeo`
    OEO,
    /// `uây`
    UACircY,
    /// `uôi`
    UOCircI,
    /// `ươi`
    UHornOHornI,
    /// `iêu`
    IECircU,
    /// `ươu`
    UHornOHornU,
    /// `iê`
    IECirc,
    /// `yê`
    YECirc,
    /// `uô`
    UOCirc,
    /// `ươ`
    UHornOHorn,
    /// `ua`
    UA,
    /// `ia`
    IA,
    /// `oa`
    OA,
    /// `oe`
    OE,
    /// `uy`
    UY,
    /// `oo`
    OO,
    /// `ao`
    AO,
    /// `ai`
    AI,
    /// `au`
    AU,
    /// `oi`
    OI,
    /// `ôi`
    OCircI,
    /// `ơi`
    OHornI,
    /// `ui`
    UI,
    /// `ưi`
    UHornI,
    /// `eo`
    EO,
    /// `êu`
    ECircU,
    /// `iu`
    IU,
    /// `ay`
    AY,
    /// `ây`
    ACircY,
    /// `â`
    ACirc,
    /// `ă`
    ABreve,
    /// `ê`
    ECirc,
    /// `ô`
    OCirc,
    /// `ơ`
    OHorn,
    /// `ư`
    UHorn,
    /// `a`
    A,
    /// `e`
    E,
    /// `i`
    I,
    /// `o`
    O,
    /// `u`
    U,
    /// `y`
    Y,
}

impl Nucleus {
    /// The letters this part is written with.
    pub open spec fn text(self) -> Seq<char> {
        match self {
            Nucleus::UYECirc => seq!['u', 'y', 'ê'],
            Nucleus::UYA => seq!['u', 'y', 'a'],
            Nucleus::UYU => seq!['u', 'y', 'u'],
            Nucleus::OAI => seq!['o', 'a', 'i'],
            Nucleus::OAY => seq!['o', 'a', 'y'],
            Nucleus::OEO => seq!['o', 'e', 'o'],
            Nucleus::UACircY => seq!['u', 'â', 'y'],
            Nucleus::UOCircI => seq!['u', 'ô', 'i'],
            Nucleus::UHornOHornI => seq!['ư', 'ơ', 'i'],
            Nucleus::IECircU => seq!['i', 'ê', 'u'],
            Nucleus::UHornOHornU => seq!['ư', 'ơ', 'u'],
            Nucleus::IECirc => seq!['i', 'ê'],
            Nucleus::YECirc => seq!['y', 'ê'],
            Nucleus::UOCirc => seq!['u', 'ô'],
            Nucleus::UHornOHorn => seq!['ư', 'ơ'],
            Nucleus::UA => seq!['u', 'a'],
            Nucleus::IA => seq!['i', 'a'],
            Nucleus::OA => seq!['o', 'a'],
            Nucleus::OE => seq!['o', 'e'],
            Nucleus::UY => seq!['u', 'y'],
            Nucleus::OO => seq!['o', 'o'],
            Nucleus::AO => seq!['a', 'o'],
            Nucleus::AI => seq!['a', 'i'],
            Nucleus::AU => seq!['a', 'u'],
            Nucleus::OI => seq!['o', 'i'],
            Nucleus::OCircI => seq!['ô', 'i'],
            Nucleus::OHornI => seq!['ơ', 'i'],
            Nucleus::UI => seq!['u', 'i'],
            Nucleus::UHornI => seq!['ư', 'i'],
            Nucleus::EO => seq!['e', 'o'],
            Nucleus::ECircU => seq!['ê', 'u'],
            Nucleus::IU => seq!['i', 'u'],
            Nucleus::AY => seq!['a', 'y'],
            Nucleus::ACircY => seq!['â', 'y'],
            Nucleus::ACirc => seq!['â'],
            Nucleus::ABreve => seq!['ă'],
            Nucleus::ECirc => seq!['ê'],
            Nucleus::OCirc => seq!['ô'],
            Nucleus::OHorn => seq!['ơ'],
            Nucleus::UHorn => seq!['ư'],
            Nucleus::A => seq!['a'],
            Nucleus::E => seq!['e'],
            Nucleus::I => seq!['i'],
            Nucleus::O => seq!['o'],
            Nucleus::U => seq!['u'],
            Nucleus::Y => seq!['y'],
        }
    }

    /// The letters this part is written with.
    pub fn chars(self) -> (r: Vec<char>)
        ensures
            r@ == self.text(),
    {
        match self {
            Nucleus::UYECirc => vec!['u', 'y', 'ê'],
            Nucleus::UYA => vec!['u', 'y', 'a'],
            Nucleus::UYU => vec!['u', 'y', 'u'],
            Nucleus::OAI => vec!['o', 'a', 'i'],
            Nucleus::OAY => vec!['o', 'a', 'y'],
            Nucleus::OEO => vec!['o', 'e', 'o'],
            Nucleus::UACircY => vec!['u', 'â', 'y'],
            Nucleus::UOCircI => vec!['u', 'ô', 'i'],
            Nucleus::UHornOHornI => vec!['ư', 'ơ', 'i'],
            Nucleus::IECircU => vec!['i', 'ê', 'u'],
            Nucleus::UHornOHornU => vec!['ư', 'ơ', 'u'],
            Nucleus::IECirc => vec!['i', 'ê'],
            Nucleus::YECirc => vec!['y', 'ê'],
            Nucleus::UOCirc => vec!['u', 'ô'],
            Nucleus::UHornOHorn => vec!['ư', 'ơ'],
            Nucleus::UA => vec!['u', 'a'],
            Nucleus::IA => vec!['i', 'a'],
            Nucleus::OA => vec!['o', 'a'],
            Nucleus::OE => vec!['o', 'e'],
            Nucleus::UY => vec!['u', 'y'],
            Nucleus::OO => vec!['o', 'o'],
            Nucleus::AO => vec!['a', 'o'],
            Nucleus::AI => vec!['a', 'i'],
            Nucleus::AU => vec!['a', 'u'],
            Nucleus::OI => vec!['o', 'i'],
            Nucleus::OCircI => vec!['ô', 'i'],
            Nucleus::OHornI => vec!['ơ', 'i'],
            Nucleus::UI => vec!['u', 'i'],
            Nucleus::UHornI => vec!['ư', 'i'],
            Nucleus::EO => vec!['e', 'o'],
            Nucleus::ECircU => vec!['ê', 'u'],
            Nucleus::IU => vec!['i', 'u'],
            Nucleus::AY => vec!['a', 'y'],
            Nucleus::ACircY => vec!['â', 'y'],
            Nucleus::ACirc => vec!['â'],
            Nucleus::ABreve => vec!['ă'],
            Nucleus::ECirc => vec!['ê'],
            Nucleus::OCirc => vec!['ô'],
            Nucleus::OHorn => vec!['ơ'],
            Nucleus::UHorn => vec!['ư'],
            Nucleus::A => vec!['a'],
            Nucleus::E => vec!['e'],
            Nucleus::I => vec!['i'],
            Nucleus::O => vec!['o'],
            Nucleus::U => vec!['u'],
            Nucleus::Y => vec!['y'],
        }
    }
}

/// The `i`-th entry of the nucleus table.
pub open spec fn nucleus_at(i: int) -> Nucleus {
    if i == 0 {
        Nucleus::UYECirc
    }
    else if i == 1 {
        Nucleus::UYA
    }
    else if i == 2 {
        Nucleus::UYU
    }
    else if i == 3 {
        Nucleus::OAI
    }
    else if i == 4 {
        Nucleus::OAY
    }
    else if i == 5 {
        Nucleus::OEO
    }
    else if i == 6 {
        Nucleus::UACircY
    }
    else if i == 7 {
        Nucleus::UOCircI
    }
    else if i == 8 {
        Nucleus::UHornOHornI
    }
    else if i == 9 {
        Nucleus::IECircU
    }
    else if i == 10 {
        Nucleus::UHornOHornU
    }
    else if i == 11 {
        Nucleus::IECirc
    }
    else if i == 12 {
        Nucleus::YECirc
    }
    else if i == 13 {
        Nucleus::UOCirc
    }
    else if i == 14 {
        Nucleus::UHornOHorn
    }
    else if i == 15 {
        Nucleus::UA
    }
    else if i == 16 {
        Nucleus::IA
    }
    else if i == 17 {
        Nucleus::OA
    }
    else if i == 18 {
        Nucleus::OE
    }
    else if i == 19 {
        Nucleus::UY
    }
    else if i == 20 {
        Nucleus::OO
    }
    else if i == 21 {
        Nucleus::AO
    }
    else if i == 22 {
        Nucleus::AI
    }
    else if i == 23 {
        Nucleus::AU
    }
    else if i == 24 {
        Nucleus::OI
    }
    else if i == 25 {
        Nucleus::OCircI
    }
    else if i == 26 {
        Nucleus::OHornI
    }
    else if i == 27 {
        Nucleus::UI
    }
    else if i == 28 {
        Nucleus::UHornI
    }
    else if i == 29 {
        Nucleus::EO
    }
    else if i == 30 {
        Nucleus::ECircU
    }
    else if i == 31 {
        Nucleus::IU
    }
    else if i == 32 {
        Nucleus::AY
    }
    else if i == 33 {
        Nucleus::ACircY
    }
    else if i == 34 {
        Nucleus::ACirc
    }
    else if i == 35 {
        Nucleus::ABreve
    }
    else if i == 36 {
        Nucleus::ECirc
    }
    else if i == 37 {
        Nucleus::OCirc
    }
    else if i == 38 {
        Nucleus::OHorn
    }
    else if i == 39 {
        Nucleus::UHorn
    }
    else if i == 40 {
        Nucleus::A
    }
    else if i == 41 {
        Nucleus::E
    }
    else if i == 42 {
        Nucleus::I
    }
    else if i == 43 {
        Nucleus::O
    }
    else if i == 44 {
        Nucleus::U
    }
    else {
        Nucleus::Y
    }
}

/// Number of entries in the nucleus table.
pub const NUCLEUS_COUNT: usize = 46;

fn nucleus_at_exec(i: usize) -> (r: Nucleus)
    requires
        i < NUCLEUS_COUNT,
    ensures
        r == nucleus_at(i as int),
{
    match i {
        0 => Nucleus::UYECirc,
        1 => Nucleus::UYA,
        2 => Nucleus::UYU,
        3 => Nucleus::OAI,
        4 => Nucleus::OAY,
        5 => Nucleus::OEO,
        6 => Nucleus::UACircY,
        7 => Nucleus::UOCircI,
        8 => Nucleus::UHornOHornI,
        9 => Nucleus::IECircU,
        10 => Nucleus::UHornOHornU,
        11 => Nucleus::IECirc,
        12 => Nucleus::YECirc,
        13 => Nucleus::UOCirc,
        14 => Nucleus::UHornOHorn,
        15 => Nucleus::UA,
        16 => Nucleus::IA,
        17 => Nucleus::OA,
        18 => Nucleus::OE,
        19 => Nucleus::UY,
        20 => Nucleus::OO,
        21 => Nucleus::AO,
        22 => Nucleus::AI,
        23 => Nucleus::AU,
        24 => Nucleus::OI,
        25 => Nucleus::OCircI,
        26 => Nucleus::OHornI,
        27 => Nucleus::UI,
        28 => Nucleus::UHornI,
        29 => Nucleus::EO,
        30 => Nucleus::ECircU,
        31 => Nucleus::IU,
        32 => Nucleus::AY,
        33 => Nucleus::ACircY,
        34 => Nucleus::ACirc,
        35 => Nucleus::ABreve,
        36 => Nucleus::ECirc,
        37 => Nucleus::OCirc,
        38 => Nucleus::OHorn,
        39 => Nucleus::UHorn,
        40 => Nucleus::A,
        41 => Nucleus::E,
        42 => Nucleus::I,
        43 => Nucleus::O,
        44 => Nucleus::U,
        _ => Nucleus::Y,
    }
}

/// Syllable codas (final consonants), in the order in which they are tried.
#[derive(Debug, Clone, Copy, PartialEq, Eq, Structural)]
pub enum Coda {
    /// `ng`
    Ng,
    /// `nh`
    Nh,
    /// `ch`
    Ch,
    /// `c`
    C,
    /// `m`
    M,
    /// `n`
    N,
    /// `p`
    P,
    /// `t`
    T,
}

impl Coda {
    /// The letters this part is written with.
    pub open spec fn text(self) -> Seq<char> {
        match self {
            Coda::Ng => seq!['n', 'g'],
            Coda::Nh => seq!['n', 'h'],
            Coda::Ch => seq!['c', 'h'],
            Coda::C => seq!['c'],
            Coda::M => seq!['m'],
            Coda::N => seq!['n'],
            Coda::P => seq!['p'],
            Coda::T => seq!['t'],
        }
    }

    /// The letters this part is written with.
    pub fn chars(self) -> (r: Vec<char>)
        ensures
            r@ == self.text(),
    {
        match self {
            Coda::Ng => vec!['n', 'g'],
            Coda::Nh => vec!['n', 'h'],
            Coda::Ch => vec!['c', 'h'],
            Coda::C => vec!['c'],
            Coda::M => vec!['m'],
            Coda::N => vec!['n'],
            Coda::P => vec!['p'],
            Coda::T => vec!['t'],
        }
    }
}

/// The `i`-th entry of the coda table.
pub open spec fn coda_at(i: int) -> Coda {
    if i == 0 {
        Coda::Ng
    }
    else if i == 1 {
        Coda::Nh
    }
    else if i == 2 {
        Coda::Ch
    }
    else if i == 3 {
        Coda::C
    }
    else if i == 4 {
        Coda::M
    }
    else if i == 5 {
        Coda::N
    }
    else if i == 6 {
        Coda::P
    }
    else {
        Coda::T
    }
}

/// Number of entries in the coda table.
pub const CODA_COUNT: usize = 8;

fn coda_at_exec(i: usize) -> (r: Coda)
    requires
        i < CODA_COUNT,
    ensures
        r == coda_at(i as int),
{
    match i {
        0 => Coda::Ng,
        1 => Coda::Nh,
        2 => Coda::Ch,
        3 => Coda::C,
        4 => Coda::M,
        5 => Coda::N,
        6 => Coda::P,
        _ => Coda::T,
    }
}

/// True when `t` is a prefix of `s[start..]`.
pub fn starts_with_at(s: &[char], start: usize, t: &[char]) -> (r: bool)
    requires
        start <= s@.len(),
    ensures
        r == t@.is_prefix_of(s@.skip(start as int)),
{
    let ghost rest = s@.skip(start as int);
    if t.len() > s.len() - start {
        return false;
    }
    let mut i: usize = 0;
    while i < t.len()
        invariant
            start <= s@.len(),
            t@.len() <= rest.len(),
            t@.len() + start <= s.len(),
            rest == s@.skip(start as int),
            i <= t@.len(),
            forall|j: int| 0 <= j < i ==> t@[j] == rest[j],
        decreases t@.len() - i,
    {
        if t[i] != s[start + i] {
            assert(t@ != rest.subrange(0, t@.len() as int)) by {
                assert(rest.subrange(0, t@.len() as int)[i as int] == rest[i as int]);
            }
            return false;
        }
        i = i + 1;
    }
    assert(t@ =~= rest.subrange(0, t@.len() as int));
    true
}

/// True when `s[start..]` is exactly `t`.
pub fn equals_at(s: &[char], start: usize, t: &[char]) -> (r: bool)
    requires
        start <= s@.len(),
    ensures
        r == (s@.skip(start as int) == t@),
{
    let ghost rest = s@.skip(start as int);
    if t.len() != s.len() - start {
        assert(rest.len() != t@.len());
        return false;
    }
    let b = starts_with_at(s, start, t);
    if b {
        assert(rest =~= rest.subrange(0, t@.len() as int));
    }
    b
}

/// The first onset of the table, from entry `i` on, that `s` starts with.
pub open spec fn first_onset_from(s: Seq<char>, i: int) -> Option<Onset>
    decreases ONSET_COUNT - i,
{
    if i >= ONSET_COUNT {
        None
    } else if onset_at(i).text().is_prefix_of(s) {
        Some(onset_at(i))
    } else {
        first_onset_from(s, i + 1)
    }
}

/// The first nucleus of the table, from entry `i` on, that `s` starts with.
pub open spec fn first_nucleus_from(s: Seq<char>, i: int) -> Option<Nucleus>
    decreases NUCLEUS_COUNT - i,
{
    if i >= NUCLEUS_COUNT {
        None
    } else if nucleus_at(i).text().is_prefix_of(s) {
        Some(nucleus_at(i))
    } else {
        first_nucleus_from(s, i + 1)
    }
}

/// The first coda of the table, from entry `i` on, that is exactly `s`.
pub open spec fn first_coda_from(s: Seq<char>, i: int) -> Option<Coda>
    decreases CODA_COUNT - i,
{
    if i >= CODA_COUNT {
        None
    } else if coda_at(i).text() == s {
        Some(coda_at(i))
    } else {
        first_coda_from(s, i + 1)
    }
}

/// The onset that `s` starts with: the first table entry that is a prefix of it.
pub open spec fn onset_of(s: Seq<char>) -> Option<Onset> {
    first_onset_from(s, 0)
}

/// Number of letters an optional onset takes.
pub open spec fn onset_len(o: Option<Onset>) -> int {
    match o {
        Some(o) => o.text().len() as int,
        None => 0,
    }
}

/// Finds the onset that `s[start..]` starts with.
pub fn consume_onset(s: &[char], start: usize) -> (r: Option<Onset>)
    requires
        start <= s@.len(),
    ensures
        r == onset_of(s@.skip(start as int)),
{
    let ghost rest = s@.skip(start as int);
    let mut i: usize = 0;
    while i < ONSET_COUNT
        invariant
            start <= s@.len(),
            rest == s@.skip(start as int),
            i <= ONSET_COUNT,
            first_onset_from(rest, 0) == first_onset_from(rest, i as int),
        decreases ONSET_COUNT - i,
    {
        let o = onset_at_exec(i);
        let text = o.chars();
        if starts_with_at(s, start, text.as_slice()) {
            return Some(o);
        }
        i = i + 1;
    }
    None
}

/// Finds the nucleus that `s[start..]` starts with.
pub fn consume_nucleus(s: &[char], start: usize) -> (r: Option<Nucleus>)
    requires
        start <= s@.len(),
    ensures
        r == first_nucleus_from(s@.skip(start as int), 0),
{
    let ghost rest = s@.skip(start as int);
    let mut i: usize = 0;
    while i < NUCLEUS_COUNT
        invariant
            start <= s@.len(),
            rest == s@.skip(start as int),
            i <= NUCLEUS_COUNT,
            first_nucleus_from(rest, 0) == first_nucleus_from(rest, i as int),
        decreases NUCLEUS_COUNT - i,
    {
        let n = nucleus_at_exec(i);
        let text = n.chars();
        if starts_with_at(s, start, text.as_slice()) {
            return Some(n);
        }
        i = i + 1;
    }
    None
}

/// Finds the coda that is exactly `s[start..]`.
pub fn consume_coda(s: &[char], start: usize) -> (r: Option<Coda>)
    requires
        start <= s@.len(),
    ensures
        r == first_coda_from(s@.skip(start as int), 0),
{
    let ghost rest = s@.skip(start as int);
    let mut i: usize = 0;
    while i < CODA_COUNT
        invariant
            start <= s@.len(),
            rest == s@.skip(start as int),
            i <= CODA_COUNT,
            first_coda_from(rest, 0) == first_coda_from(rest, i as int),
        decreases CODA_COUNT - i,
    {
        let c = coda_at_exec(i);
        let text = c.chars();
        if equals_at(s, start, text.as_slice()) {
            return Some(c);
        }
        i = i + 1;
    }
    None
}

} // verus!
