//! Searching the log with a regular expression and stepping through the
//! lines that match.
use vstd::prelude::*;

verus! {

#[verifier::external_type_specification]
#[verifier::external_body]
pub struct ExRegex(regex::Regex);

/// Whether `regex::Regex::new` accepts a pattern: a function of the pattern.
pub uninterp spec fn regex_compiles(pattern: Seq<char>) -> bool;

/// Whether the regex compiled from `pattern` finds a match anywhere in
/// `text` (`regex::Regex::is_match`): a function of the two.
pub uninterp spec fn regex_finds(pattern: Seq<char>, text: Seq<char>) -> bool;

/// `regex::Regex::new`: a regex exactly when the crate accepts the pattern.
#[verifier::external_body]
fn compile_regex(pattern: &str) -> (r: Option<regex::Regex>)
    ensures
        r is Some <==> regex_compiles(pattern@),
{
    regex::Regex::new(pattern).ok()
}

/// A regex together with the pattern it was compiled from.  Its fields are
/// private and `compile` is its only constructor, so `regex` is always the
/// compilation of `source`.
pub struct CompiledQuery {
    regex: regex::Regex,
    source: String,
}

impl CompiledQuery {
    /// The pattern the regex was compiled from.
    pub closed spec fn pattern(&self) -> Seq<char> {
        self.source@
    }

    /// Compiles `pattern`; `None` when the regex crate refuses it.
    pub fn compile(pattern: &str) -> (r: Option<CompiledQuery>)
        ensures
            r is Some <==> regex_compiles(pattern@),
            r matches Some(q) ==> q.pattern() == pattern@,
    {
        match compile_regex(pattern) {
            Some(regex) => Some(CompiledQuery { regex, source: pattern.to_owned() }),
            None => None,
        }
    }

    /// The pattern the regex was compiled from.
    pub fn source(&self) -> (s: &str)
        ensures
            s@ == self.pattern(),
    {
        self.source.as_str()
    }
}

/// `regex::Regex::is_match` on the regex of `q`, which was compiled from
/// `q.pattern()`: the result is named by `regex_finds`.
#[verifier::external_body]
fn query_finds(q: &CompiledQuery, text: &str) -> (b: bool)
    ensures
        b == regex_finds(q.pattern(), text@),
{
    q.regex.is_match(text)
}

/// The indices below `n` of the lines that the pattern finds a match in,
/// in increasing order; none when there is no pattern.
pub open spec fn match_indices(pattern: Option<Seq<char>>, lines: Seq<Seq<char>>, n: int) -> Seq<usize>
    decreases n,
{
    if n <= 0 {
        Seq::empty()
    } else {
        let earlier = match_indices(pattern, lines, n - 1);
        if pattern_finds(pattern, lines[n - 1]) {
            earlier.push((n - 1) as usize)
        } else {
            earlier
        }
    }
}

/// Whether an optional pattern finds a match in `text`; no pattern finds
/// nothing.
pub open spec fn pattern_finds(pattern: Option<Seq<char>>, text: Seq<char>) -> bool {
    match pattern {
        Some(p) => regex_finds(p, text),
        None => false,
    }
}

/// The pattern of an optional compiled query.
pub open spec fn pattern_of(q: Option<CompiledQuery>) -> Option<Seq<char>> {
    match q {
        Some(c) => Some(c.pattern()),
        None => None,
    }
}

/// The contents of a list of strings.
pub open spec fn texts_of(lines: Seq<String>) -> Seq<Seq<char>> {
    lines.map_values(|s: String| s@)
}

/// Facts about `match_indices`: its entries increase, stay below `n`, and
/// are exactly the matching lines.
pub proof fn lemma_match_indices(pattern: Option<Seq<char>>, lines: Seq<Seq<char>>, n: int)
    requires
        0 <= n <= lines.len(),
        n <= usize::MAX + 1,
    ensures
        forall|a: int, b: int|
            0 <= a < b < match_indices(pattern, lines, n).len() ==> match_indices(pattern, lines, n)[a]
                < match_indices(pattern, lines, n)[b],
        forall|a: int|
            0 <= a < match_indices(pattern, lines, n).len() ==> match_indices(pattern, lines, n)[a] < n,
        forall|k: int|
            #![trigger lines[k]]
            0 <= k < n ==> (match_indices(pattern, lines, n).contains(k as usize)
                <==> pattern_finds(pattern, lines[k])),
    decreases n,
{
    if n > 0 {
        lemma_match_indices(pattern, lines, n - 1);
        let earlier = match_indices(pattern, lines, n - 1);
        let now = match_indices(pattern, lines, n);
        let pushed = pattern_finds(pattern, lines[n - 1]);
        if pushed {
            assert(now == earlier.push((n - 1) as usize));
        } else {
            assert(now == earlier);
        }
        assert forall|k: int| #![trigger lines[k]] 0 <= k < n implies (now.contains(k as usize)
            <==> pattern_finds(pattern, lines[k])) by {
            if pushed {
                if k < n - 1 {
                    if now.contains(k as usize) {
                        let j = choose|j: int| 0 <= j < now.len() && now[j] == k as usize;
                        if j == earlier.len() {
                            assert(now[j] == (n - 1) as usize);
                        } else {
                            assert(earlier[j] == k as usize);
                            assert(earlier.contains(k as usize));
                        }
                    }
                    if earlier.contains(k as usize) {
                        let j = choose|j: int| 0 <= j < earlier.len() && earlier[j] == k as usize;
                        assert(now[j] == earlier[j]);
                    }
                } else {
                    assert(now[earlier.len() as int] == k as usize);
                }
            } else {
                if k == n - 1 {
                    if now.contains(k as usize) {
                        let j = choose|j: int| 0 <= j < now.len() && now[j] == k as usize;
                        assert(earlier[j] < n - 1);
                    }
                }
            }
        }
    }
}

/// The state of a search: the query typed, its compiled form, the matching
/// line indices, and which of them is selected.
pub struct SearchState {
    pub query: String,
    pub regex: Option<CompiledQuery>,
    pub matches: Vec<usize>,
    pub current_match: Option<usize>,
    pub filter_mode: bool,
}

impl Default for SearchState {
    fn default() -> (s: Self)
        ensures
            s.query@ == Seq::<char>::empty(),
            s.regex is None,
            s.matches@ == Seq::<usize>::empty(),
            s.current_match is None,
            !s.filter_mode,
    {
        SearchState {
            query: String::new(),
            regex: None,
            matches: Vec::new(),
            current_match: None,
            filter_mode: false,
        }
    }
}

impl SearchState {
    /// The selected match, if any, indexes into `matches`.
    pub open spec fn wf(&self) -> bool {
        self.current_match matches Some(i) ==> i < self.matches@.len()
    }

    /// The step forward through the matches: from nothing to the first,
    /// from the last back to the first.
    pub open spec fn next_position(current: Option<usize>, count: nat) -> Option<usize> {
        if count == 0 {
            current
        } else {
            match current {
                None => Some(0),
                Some(i) => Some(((i + 1) % (count as int)) as usize),
            }
        }
    }

    /// The step backward through the matches: from nothing to the first,
    /// from the first around to the last.
    pub open spec fn prev_position(current: Option<usize>, count: nat) -> Option<usize> {
        if count == 0 {
            current
        } else {
            match current {
                None => Some(0),
                Some(i) => if i == 0 {
                    Some((count - 1) as usize)
                } else {
                    Some((i - 1) as usize)
                },
            }
        }
    }

    /// Starts a new query: compiles it (an invalid pattern leaves no regex)
    /// and forgets the previous matches.
    pub fn set_query(&mut self, query: &str)
        ensures
            final(self).query@ == query@,
            final(self).regex is Some <==> regex_compiles(query@),
            final(self).regex matches Some(q) ==> q.pattern() == query@,
            final(self).matches@ == Seq::<usize>::empty(),
            final(self).current_match is None,
            final(self).filter_mode == old(self).filter_mode,
            final(self).wf(),
    {
        self.query = query.to_owned();
        self.regex = CompiledQuery::compile(query);
        self.matches.clear();
        self.current_match = None;
    }

    /// Finds the lines the regex matches, and selects the first of them.
    pub fn update_matches(&mut self, lines: &[String])
        ensures
            final(self).matches@ == match_indices(pattern_of(old(self).regex), texts_of(lines@), lines@.len() as int),
            final(self).current_match == (if final(self).matches@.len() == 0 {
                None
            } else {
                Some(0usize)
            }),
            final(self).query == old(self).query,
            final(self).regex == old(self).regex,
            final(self).filter_mode == old(self).filter_mode,
            final(self).wf(),
    {
        self.matches.clear();
        let ghost pattern = pattern_of(self.regex);
        let ghost texts = texts_of(lines@);
        let mut i: usize = 0;
        while i < lines.len()
            invariant
                i <= lines@.len(),
                pattern == pattern_of(self.regex),
                self.regex == old(self).regex,
                self.query == old(self).query,
                self.filter_mode == old(self).filter_mode,
                texts == texts_of(lines@),
                self.matches@ == match_indices(pattern, texts, i as int),
            decreases lines.len() - i,
        {
            let found = match &self.regex {
                Some(q) => query_finds(q, lines[i].as_str()),
                None => false,
            };
            if found {
                self.matches.push(i);
            }
            i += 1;
        }
        if self.matches.len() == 0 {
            self.current_match = None;
        } else {
            self.current_match = Some(0);
        }
    }

    /// Selects the next match, wrapping around (see `next_position`).
    pub fn next_match(&mut self)
        requires
            old(self).wf(),
        ensures
            final(self).current_match == Self::next_position(
                old(self).current_match,
                old(self).matches@.len(),
            ),
            final(self).matches == old(self).matches,
            final(self).query == old(self).query,
            final(self).regex == old(self).regex,
            final(self).filter_mode == old(self).filter_mode,
            final(self).wf(),
    {
        if self.matches.len() == 0 {
            return;
        }
        self.current_match = Some(
            match self.current_match {
                None => 0,
                Some(i) => (i + 1) % self.matches.len(),
            },
        );
    }

    /// Selects the previous match, wrapping around (see `prev_position`).
    pub fn prev_match(&mut self)
        requires
            old(self).wf(),
        ensures
            final(self).current_match == Self::prev_position(
                old(self).current_match,
                old(self).matches@.len(),
            ),
            final(self).matches == old(self).matches,
            final(self).query == old(self).query,
            final(self).regex == old(self).regex,
            final(self).filter_mode == old(self).filter_mode,
            final(self).wf(),
    {
        if self.matches.len() == 0 {
            return;
        }
        self.current_match = Some(
            match self.current_match {
                None => 0,
                Some(i) => if i == 0 {
                    self.matches.len() - 1
                } else {
                    i - 1
                },
            },
        );
    }

    /// The log line of the selected match, if any.
    pub fn current_line_index(&self) -> (r: Option<usize>)
        ensures
            r == (match self.current_match {
                Some(i) => if i < self.matches@.len() {
                    Some(self.matches@[i as int])
                } else {
                    None
                },
                None => None,
            }),
    {
        match self.current_match {
            Some(i) => if i < self.matches.len() {
                Some(self.matches[i])
            } else {
                None
            },
            None => None,
        }
    }

    /// Whether log line `line_index` is among the matches.
    pub fn is_match(&self, line_index: usize) -> (r: bool)
        ensures
            r == self.matches@.contains(line_index),
    {
        let mut k: usize = 0;
        while k < self.matches.len()
            invariant
                k <= self.matches@.len(),
                forall|j: int| 0 <= j < k ==> self.matches@[j] != line_index,
            decreases self.matches.len() - k,
        {
            if self.matches[k] == line_index {
                return true;
            }
            k += 1;
        }
        false
    }
}


/// Stepping forward then back through the matches returns to the selected
/// match.
pub proof fn law_next_then_prev(current: usize, count: nat)
    requires
        current < count,
        count <= usize::MAX,
    ensures
        SearchState::prev_position(SearchState::next_position(Some(current), count), count) == Some(
            current,
        ),
{
    lemma_step_mod(current as int, count as int);
}

proof fn lemma_step_mod(i: int, n: int)
    requires
        0 <= i < n,
    ensures
        i + 1 < n ==> (i + 1) % n == i + 1,
        i + 1 == n ==> (i + 1) % n == 0,
{
    if i + 1 < n {
        vstd::arithmetic::div_mod::lemma_small_mod((i + 1) as nat, n as nat);
    } else {
        vstd::arithmetic::div_mod::lemma_mod_self_0(n);
    }
}

/// Stepping back then forward through the matches returns to the selected
/// match.
pub proof fn law_prev_then_next(current: usize, count: nat)
    requires
        current < count,
        count < usize::MAX,
    ensures
        SearchState::next_position(SearchState::prev_position(Some(current), count), count) == Some(
            current,
        ),
{
    if current == 0 {
        lemma_step_mod(count - 1, count as int);
    } else {
        lemma_step_mod(current - 1, count as int);
    }
}

/// With no matches the selection never moves; with some it always lands on
/// one of them.
pub proof fn law_steps_stay_on_matches(current: Option<usize>, count: nat)
    requires
        current matches Some(i) ==> i < count,
        count <= usize::MAX,
    ensures
        count == 0 ==> SearchState::next_position(current, count) == current
            && SearchState::prev_position(current, count) == current,
        count > 0 ==> (SearchState::next_position(current, count) matches Some(j) && j < count),
        count > 0 ==> (SearchState::prev_position(current, count) matches Some(j) && j < count),
{
    if count > 0 {
        if let Some(i) = current {
            lemma_step_mod(i as int, count as int);
        }
    }
}

} // verus!
