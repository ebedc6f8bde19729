//! User feedback: categories, message normalization, validation, and the
//! retained form state the rendering layer reads and writes.
//!
//! A raw message is normalized before validation: line endings become a
//! single linebreak style, runs of interior spaces collapse to one, and
//! leading/trailing whitespace is trimmed. A normalized message shorter
//! than two characters is rejected locally and never reaches the network.

use vstd::prelude::*;

use crate::api_types::FeedbackPayload;

verus! {

/// The category a piece of feedback files under.
#[derive(Clone, Copy, PartialEq, Eq, Structural, Debug)]
pub enum FeedbackCategory {
    General,
    Ui,
    Gameplay,
    Performance,
    Bugs,
    Controls,
    Audio,
    Balance,
    Graphics,
    Visual,
    Art,
    Other,
}

pub open spec fn label_of(c: FeedbackCategory) -> Seq<char> {
    match c {
        FeedbackCategory::General => "General"@,
        FeedbackCategory::Ui => "UI"@,
        FeedbackCategory::Gameplay => "Gameplay"@,
        FeedbackCategory::Performance => "Performance"@,
        FeedbackCategory::Bugs => "Bugs"@,
        FeedbackCategory::Controls => "Controls"@,
        FeedbackCategory::Audio => "Audio"@,
        FeedbackCategory::Balance => "Balance"@,
        FeedbackCategory::Graphics => "Graphics"@,
        FeedbackCategory::Visual => "Visual"@,
        FeedbackCategory::Art => "Art"@,
        FeedbackCategory::Other => "Other"@,
    }
}

pub open spec fn label_lower_of(c: FeedbackCategory) -> Seq<char> {
    match c {
        FeedbackCategory::General => "general"@,
        FeedbackCategory::Ui => "ui"@,
        FeedbackCategory::Gameplay => "gameplay"@,
        FeedbackCategory::Performance => "performance"@,
        FeedbackCategory::Bugs => "bugs"@,
        FeedbackCategory::Controls => "controls"@,
        FeedbackCategory::Audio => "audio"@,
        FeedbackCategory::Balance => "balance"@,
        FeedbackCategory::Graphics => "graphics"@,
        FeedbackCategory::Visual => "visual"@,
        FeedbackCategory::Art => "art"@,
        FeedbackCategory::Other => "other"@,
    }
}

impl FeedbackCategory {
    /// The label shown in the user interface.
    pub fn label(&self) -> (r: &'static str)
        ensures
            r@ == label_of(*self),
    {
        match self {
            FeedbackCategory::General => "General",
            FeedbackCategory::Ui => "UI",
            FeedbackCategory::Gameplay => "Gameplay",
            FeedbackCategory::Performance => "Performance",
            FeedbackCategory::Bugs => "Bugs",
            FeedbackCategory::Controls => "Controls",
            FeedbackCategory::Audio => "Audio",
            FeedbackCategory::Balance => "Balance",
            FeedbackCategory::Graphics => "Graphics",
            FeedbackCategory::Visual => "Visual",
            FeedbackCategory::Art => "Art",
            FeedbackCategory::Other => "Other",
        }
    }

    /// The lowercase label sent on the wire.
    pub fn label_lower(&self) -> (r: &'static str)
        ensures
            r@ == label_lower_of(*self),
    {
        match self {
            FeedbackCategory::General => "general",
            FeedbackCategory::Ui => "ui",
            FeedbackCategory::Gameplay => "gameplay",
            FeedbackCategory::Performance => "performance",
            FeedbackCategory::Bugs => "bugs",
            FeedbackCategory::Controls => "controls",
            FeedbackCategory::Audio => "audio",
            FeedbackCategory::Balance => "balance",
            FeedbackCategory::Graphics => "graphics",
            FeedbackCategory::Visual => "visual",
            FeedbackCategory::Art => "art",
            FeedbackCategory::Other => "other",
        }
    }

    /// Every category, in presentation order.
    pub fn all() -> (r: Vec<FeedbackCategory>)
        ensures
            r@ =~= seq![
                FeedbackCategory::General,
                FeedbackCategory::Ui,
                FeedbackCategory::Gameplay,
                FeedbackCategory::Performance,
                FeedbackCategory::Bugs,
                FeedbackCategory::Controls,
                FeedbackCategory::Audio,
                FeedbackCategory::Balance,
                FeedbackCategory::Graphics,
                FeedbackCategory::Visual,
                FeedbackCategory::Art,
                FeedbackCategory::Other,
            ],
    {
        let mut v: Vec<FeedbackCategory> = Vec::new();
        v.push(FeedbackCategory::General);
        v.push(FeedbackCategory::Ui);
        v.push(FeedbackCategory::Gameplay);
        v.push(FeedbackCategory::Performance);
        v.push(FeedbackCategory::Bugs);
        v.push(FeedbackCategory::Controls);
        v.push(FeedbackCategory::Audio);
        v.push(FeedbackCategory::Balance);
        v.push(FeedbackCategory::Graphics);
        v.push(FeedbackCategory::Visual);
        v.push(FeedbackCategory::Art);
        v.push(FeedbackCategory::Other);
        v
    }
}

/// `"\r\n"` and a lone `'\r'` both become `'\n'`, scanning from index `i`.
pub open spec fn normalize_newlines_from(s: Seq<char>, i: int) -> Seq<char>
    decreases s.len() - i,
{
    if i < 0 || i >= s.len() {
        Seq::empty()
    } else if s[i] == '\r' && i + 1 < s.len() && s[i + 1] == '\n' {
        seq!['\n'] + normalize_newlines_from(s, i + 2)
    } else if s[i] == '\r' {
        seq!['\n'] + normalize_newlines_from(s, i + 1)
    } else {
        seq![s[i]] + normalize_newlines_from(s, i + 1)
    }
}

pub open spec fn normalize_newlines(s: Seq<char>) -> Seq<char> {
    normalize_newlines_from(s, 0)
}

/// A space directly followed by another space is dropped, so each run of
/// spaces keeps exactly its last one, scanning from index `i`.
pub open spec fn collapse_spaces_from(s: Seq<char>, i: int) -> Seq<char>
    decreases s.len() - i,
{
    if i < 0 || i >= s.len() {
        Seq::empty()
    } else if s[i] == ' ' && i + 1 < s.len() && s[i + 1] == ' ' {
        collapse_spaces_from(s, i + 1)
    } else {
        seq![s[i]] + collapse_spaces_from(s, i + 1)
    }
}

pub open spec fn collapse_spaces(s: Seq<char>) -> Seq<char> {
    collapse_spaces_from(s, 0)
}

/// Whitespace as trimming understands it.
pub open spec fn is_trim_ws(c: char) -> bool {
    c == ' ' || c == '\n' || c == '\t' || c == '\r'
}

pub open spec fn trim_start_from(s: Seq<char>, i: int) -> Seq<char>
    decreases s.len() - i,
{
    if i < 0 || i >= s.len() {
        Seq::empty()
    } else if is_trim_ws(s[i]) {
        trim_start_from(s, i + 1)
    } else {
        s.subrange(i, s.len() as int)
    }
}

pub open spec fn trim_end(s: Seq<char>) -> Seq<char>
    decreases s.len(),
{
    if s.len() == 0 {
        Seq::empty()
    } else if is_trim_ws(s.last()) {
        trim_end(s.drop_last())
    } else {
        s
    }
}

pub open spec fn trimmed(s: Seq<char>) -> Seq<char> {
    trim_end(trim_start_from(s, 0))
}

/// The whole normalization: linebreaks unified, space runs collapsed,
/// ends trimmed.
pub open spec fn normalized_message(s: Seq<char>) -> Seq<char> {
    trimmed(collapse_spaces(normalize_newlines(s)))
}

fn pass_normalize_newlines(s: &str) -> (r: String)
    ensures
        r@ == normalize_newlines(s@),
{
    let n = s.unicode_len();
    let mut out = String::new();
    let mut i: usize = 0;
    while i < n
        invariant
            0 <= i <= n,
            n == s@.len(),
            normalize_newlines_from(s@, 0) == out@ + normalize_newlines_from(s@, i as int),
        decreases n - i,
    {
        let ghost pre = out@;
        let ghost pre_i = i as int;
        let c = s.get_char(i);
        if c == '\r' && i + 1 < n && s.get_char(i + 1) == '\n' {
            out.push('\n');
            i = i + 2;
        } else if c == '\r' {
            out.push('\n');
            i = i + 1;
        } else {
            out.push(c);
            i = i + 1;
        }
        proof {
            let emitted = if c == '\r' { '\n' } else { c };
            assert(out@ == pre.push(emitted));
            assert(normalize_newlines_from(s@, pre_i) == seq![emitted]
                + normalize_newlines_from(s@, i as int));
            assert(pre + (seq![emitted] + normalize_newlines_from(s@, i as int)) =~= pre.push(
                emitted,
            ) + normalize_newlines_from(s@, i as int));
        }
    }
    proof {
        assert(normalize_newlines_from(s@, i as int) =~= Seq::<char>::empty());
        assert(out@ + Seq::<char>::empty() =~= out@);
    }
    out
}

fn pass_collapse_spaces(s: &str) -> (r: String)
    ensures
        r@ == collapse_spaces(s@),
{
    let n = s.unicode_len();
    let mut out = String::new();
    let mut i: usize = 0;
    while i < n
        invariant
            0 <= i <= n,
            n == s@.len(),
            collapse_spaces_from(s@, 0) == out@ + collapse_spaces_from(s@, i as int),
        decreases n - i,
    {
        let ghost pre = out@;
        let ghost pre_i = i as int;
        let c = s.get_char(i);
        if c == ' ' && i + 1 < n && s.get_char(i + 1) == ' ' {
            i = i + 1;
            proof {
                assert(collapse_spaces_from(s@, pre_i) == collapse_spaces_from(s@, i as int));
            }
        } else {
            out.push(c);
            i = i + 1;
            proof {
                assert(out@ == pre.push(c));
                assert(collapse_spaces_from(s@, pre_i) == seq![c]
                    + collapse_spaces_from(s@, i as int));
                assert(pre + (seq![c] + collapse_spaces_from(s@, i as int)) =~= pre.push(c)
                    + collapse_spaces_from(s@, i as int));
            }
        }
    }
    proof {
        assert(collapse_spaces_from(s@, i as int) =~= Seq::<char>::empty());
        assert(out@ + Seq::<char>::empty() =~= out@);
    }
    out
}

fn is_trim_ws_char(c: char) -> (b: bool)
    ensures
        b == is_trim_ws(c),
{
    c == ' ' || c == '\n' || c == '\t' || c == '\r'
}

fn pass_trim(s: &str) -> (r: String)
    ensures
        r@ == trimmed(s@),
{
    let n = s.unicode_len();
    let mut a: usize = 0;
    while a < n && is_trim_ws_char(s.get_char(a))
        invariant
            0 <= a <= n,
            n == s@.len(),
            trim_start_from(s@, 0) == trim_start_from(s@, a as int),
        decreases n - a,
    {
        a = a + 1;
    }
    // `a` is the first index that is not whitespace, or `n`.
    proof {
        assert(trim_start_from(s@, a as int) == if a < n {
            s@.subrange(a as int, s@.len() as int)
        } else {
            Seq::<char>::empty()
        });
    }
    let ghost t = trim_start_from(s@, 0);
    let mut b: usize = n;
    while b > a && is_trim_ws_char(s.get_char(b - 1))
        invariant
            a <= b <= n,
            n == s@.len(),
            a < n ==> t == s@.subrange(a as int, s@.len() as int),
            a >= n ==> t =~= Seq::<char>::empty(),
            trim_end(t) == trim_end(s@.subrange(a as int, b as int)),
        decreases b,
    {
        proof {
            let cur = s@.subrange(a as int, b as int);
            assert(cur.len() > 0);
            assert(cur.last() == s@[b - 1]);
            assert(is_trim_ws(cur.last()));
            assert(cur.drop_last() =~= s@.subrange(a as int, b - 1));
        }
        b = b - 1;
    }
    proof {
        let cur = s@.subrange(a as int, b as int);
        if b > a {
            assert(cur.len() > 0);
            assert(cur.last() == s@[b - 1]);
            assert(!is_trim_ws(cur.last()));
            assert(trim_end(cur) == cur);
        } else {
            assert(cur =~= Seq::<char>::empty());
            assert(trim_end(cur) == Seq::<char>::empty());
            assert(trim_end(cur) =~= cur);
        }
    }
    let out = s.substring_char(a, b);
    String::from_str(out)
}

/// Normalizes a raw feedback message: linebreaks unified, runs of spaces
/// collapsed, leading and trailing whitespace removed.
pub fn normalize_message(s: &str) -> (r: String)
    ensures
        r@ == normalized_message(s@),
{
    let pass1 = pass_normalize_newlines(s);
    let pass2 = pass_collapse_spaces(pass1.as_str());
    pass_trim(pass2.as_str())
}

/// Why a feedback submission was refused locally.
#[derive(Clone, Copy, PartialEq, Eq, Structural, Debug)]
pub enum FeedbackError {
    /// The normalized message is shorter than two characters.
    TooShort,
    /// No session is active, so there is nothing to attach feedback to.
    NoActiveSession,
}

impl FeedbackError {
    /// The user-facing description of the refusal.
    pub fn message(&self) -> (r: &'static str)
        ensures
            *self == FeedbackError::TooShort ==> r@
                == "Feedback cannot be less than 2 characters"@,
            *self == FeedbackError::NoActiveSession ==> r@ == "No active session"@,
    {
        match self {
            FeedbackError::TooShort => "Feedback cannot be less than 2 characters",
            FeedbackError::NoActiveSession => "No active session",
        }
    }
}

/// Normalizes and validates a raw message, and on success builds the
/// payload that goes to the transport: rejection happens locally, exactly
/// when the normalized message has fewer than two characters.
pub fn build_feedback_payload(
    message: &str,
    category: FeedbackCategory,
    question: Option<String>,
    elapsed_ms: u128,
) -> (r: Result<FeedbackPayload, FeedbackError>)
    ensures
        normalized_message(message@).len() < 2 ==> r == Result::<
            FeedbackPayload,
            FeedbackError,
        >::Err(FeedbackError::TooShort),
        normalized_message(message@).len() >= 2 ==> (r matches Ok(p) && {
            &&& p.message@ == normalized_message(message@)
            &&& p.category@ == label_lower_of(category)
            &&& p.elapsed_ms == elapsed_ms
            &&& p.question == question
        }),
{
    let normalized = normalize_message(message);
    if normalized.as_str().unicode_len() < 2 {
        return Err(FeedbackError::TooShort);
    }
    Ok(
        FeedbackPayload {
            message: normalized,
            category: String::from_str(category.label_lower()),
            elapsed_ms,
            question,
        },
    )
}

/// What a host asks the form layer to show. The presence of this value is
/// the pending "feedback requested" state.
pub struct FeedbackPanelProps {
    pub question: Option<String>,
    pub category: Option<FeedbackCategory>,
    pub visible: bool,
    pub allow_screenshot: bool,
}

impl FeedbackPanelProps {
    /// A visible prompt asking one specific question in one category.
    pub fn with_question(question: String, category: FeedbackCategory) -> (r: FeedbackPanelProps)
        ensures
            r.question == Some(question),
            r.category == Some(category),
            r.visible,
            r.allow_screenshot,
    {
        FeedbackPanelProps {
            question: Some(question),
            category: Some(category),
            visible: true,
            allow_screenshot: true,
        }
    }

    /// A visible free-form panel.
    pub fn visible() -> (r: FeedbackPanelProps)
        ensures
            r.question is None,
            r.category is None,
            r.visible,
            r.allow_screenshot,
    {
        FeedbackPanelProps { question: None, category: None, visible: true, allow_screenshot: true }
    }

    pub fn allow_screenshot(self, allow_screenshot: bool) -> (r: FeedbackPanelProps)
        ensures
            r.allow_screenshot == allow_screenshot,
            r.question == self.question,
            r.category == self.category,
            r.visible == self.visible,
    {
        FeedbackPanelProps { allow_screenshot, ..self }
    }
}

/// The host's toggle (a hotkey, typically): flips the panel's visibility,
/// or conjures a visible free-form panel where none was requested yet.
pub fn toggle_panel_visibility(props: &mut Option<FeedbackPanelProps>)
    ensures
        (*old(props)) matches Some(p) ==> ((*final(props)) matches Some(q) && {
            &&& q.visible == !p.visible
            &&& q.question == p.question
            &&& q.category == p.category
            &&& q.allow_screenshot == p.allow_screenshot
        }),
        (*old(props)) is None ==> ((*final(props)) matches Some(q) && {
            &&& q.visible
            &&& q.question is None
            &&& q.category is None
            &&& q.allow_screenshot
        }),
{
    match props {
        Some(p) => {
            p.visible = !p.visible;
        },
        None => {
            *props = Some(FeedbackPanelProps::visible());
        },
    }
}

/// The retained state of the feedback form, exposed as plain data with an
/// explicit get/set interface; the rendering layer is a consumer of this
/// and never of the pipeline's internals.
pub struct FeedbackFormState {
    pub rating: u8,
    pub category: FeedbackCategory,
    pub include_screenshot: bool,
    pub dropdown_open: bool,
    pub question: Option<String>,
    pub error: Option<String>,
}

impl FeedbackFormState {
    pub fn new() -> (r: FeedbackFormState)
        ensures
            r.rating == 0,
            r.category == FeedbackCategory::General,
            !r.include_screenshot,
            !r.dropdown_open,
            r.question is None,
            r.error is None,
    {
        FeedbackFormState {
            rating: 0,
            category: FeedbackCategory::General,
            include_screenshot: false,
            dropdown_open: false,
            question: None,
            error: None,
        }
    }

    /// Opens or closes the category dropdown.
    pub fn toggle_dropdown(&mut self)
        ensures
            final(self).dropdown_open == !old(self).dropdown_open,
            final(self).category == old(self).category,
            final(self).include_screenshot == old(self).include_screenshot,
            final(self).rating == old(self).rating,
            final(self).question == old(self).question,
            final(self).error == old(self).error,
    {
        self.dropdown_open = !self.dropdown_open;
    }

    /// Picks a category, which also closes the dropdown.
    pub fn pick_category(&mut self, category: FeedbackCategory)
        ensures
            final(self).category == category,
            !final(self).dropdown_open,
            final(self).include_screenshot == old(self).include_screenshot,
            final(self).rating == old(self).rating,
            final(self).question == old(self).question,
            final(self).error == old(self).error,
    {
        self.category = category;
        self.dropdown_open = false;
    }

    /// Flips whether a screenshot rides along with the submission.
    pub fn toggle_screenshot(&mut self)
        ensures
            final(self).include_screenshot == !old(self).include_screenshot,
            final(self).category == old(self).category,
            final(self).dropdown_open == old(self).dropdown_open,
            final(self).rating == old(self).rating,
            final(self).question == old(self).question,
            final(self).error == old(self).error,
    {
        self.include_screenshot = !self.include_screenshot;
    }
}

} // verus!
