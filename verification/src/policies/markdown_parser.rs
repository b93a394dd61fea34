//! The policy markdown format.
//!
//! A policy file is `---`, a YAML frontmatter, `---`, then a markdown body made of
//! `## Title` sections. Each section lists `- id: ...` and the bullet items of its
//! `### Match`, `### Examples` and `### Notes` subsections.
//! The frontmatter itself is YAML and is decoded outside this module; this module
//! splits it off and parses the body.
use vstd::prelude::*;
use crate::text::{
    append_str, ascii_lower_code, chars_of, eq_ignore_ascii_case, starts_with, eq_ignore_case, find, find_chars, is_blank, join, join_vecs,
    lemma_find, lines, matches_at, opt_view, slice_to_vec, split_lines, string_of, strings_of,
    strings_view, strip_prefix, strip_prefix_chars, trim, trim_vec, vecs_view,
};

verus! {

/// The frontmatter fields of a policy document.
pub struct PolicyDocumentMeta {
    pub name: String,
    pub description: Option<String>,
}

/// One rule section of a policy document.
pub struct PolicyRule {
    pub id: String,
    pub title: String,
    pub match_terms: Vec<String>,
    pub examples: Vec<String>,
    pub notes: Option<String>,
}

/// A parsed policy document.
pub struct PolicyDocument {
    pub meta: PolicyDocumentMeta,
    pub rules: Vec<PolicyRule>,
}

/// The mathematical value of a rule.
pub struct RuleView {
    pub id: Seq<char>,
    pub title: Seq<char>,
    pub match_terms: Seq<Seq<char>>,
    pub examples: Seq<Seq<char>>,
    pub notes: Option<Seq<char>>,
}

impl View for PolicyRule {
    type V = RuleView;

    open spec fn view(&self) -> RuleView {
        RuleView {
            id: self.id@,
            title: self.title@,
            match_terms: strings_view(self.match_terms@),
            examples: strings_view(self.examples@),
            notes: opt_view(self.notes),
        }
    }
}

/// The rules of a vector, as values.
pub open spec fn rules_view(v: Seq<PolicyRule>) -> Seq<RuleView> {
    v.map_values(|r: PolicyRule| r@)
}

/// Why a policy document was rejected.
pub enum PolicyParseError {
    /// Text other than whitespace precedes the first `---`.
    MissingFrontmatterStart,
    /// There is no `---` at all.
    MissingFrontmatter,
    /// There is no second `---` closing the frontmatter.
    MissingBody,
    /// The frontmatter could not be decoded; the decoder's message.
    InvalidFrontmatter(String),
    /// The body has no `## ` section.
    NoRules,
    /// The rule with this title has no `- id:` line.
    MissingId(String),
    /// The rule with this title lists no match terms.
    MissingMatchTerms(String),
    /// The rule with this title lists no examples.
    MissingExamples(String),
}

/// The mathematical value of a parse error.
pub enum PolicyParseErrorView {
    MissingFrontmatterStart,
    MissingFrontmatter,
    MissingBody,
    InvalidFrontmatter(Seq<char>),
    NoRules,
    MissingId(Seq<char>),
    MissingMatchTerms(Seq<char>),
    MissingExamples(Seq<char>),
}

impl View for PolicyParseError {
    type V = PolicyParseErrorView;

    open spec fn view(&self) -> PolicyParseErrorView {
        match self {
            PolicyParseError::MissingFrontmatterStart => PolicyParseErrorView::MissingFrontmatterStart,
            PolicyParseError::MissingFrontmatter => PolicyParseErrorView::MissingFrontmatter,
            PolicyParseError::MissingBody => PolicyParseErrorView::MissingBody,
            PolicyParseError::InvalidFrontmatter(m) => PolicyParseErrorView::InvalidFrontmatter(m@),
            PolicyParseError::NoRules => PolicyParseErrorView::NoRules,
            PolicyParseError::MissingId(t) => PolicyParseErrorView::MissingId(t@),
            PolicyParseError::MissingMatchTerms(t) => PolicyParseErrorView::MissingMatchTerms(t@),
            PolicyParseError::MissingExamples(t) => PolicyParseErrorView::MissingExamples(t@),
        }
    }
}

/// The text of a parse error.
pub open spec fn parse_error_text(e: PolicyParseErrorView) -> Seq<char> {
    match e {
        PolicyParseErrorView::MissingFrontmatterStart => "policy must start with YAML frontmatter"@,
        PolicyParseErrorView::MissingFrontmatter => "missing YAML frontmatter section"@,
        PolicyParseErrorView::MissingBody => "missing markdown body after frontmatter"@,
        PolicyParseErrorView::InvalidFrontmatter(m) => m,
        PolicyParseErrorView::NoRules => "policy file must contain at least one rule section"@,
        PolicyParseErrorView::MissingId(t) => "rule '"@ + t + "' missing '- id:' line"@,
        PolicyParseErrorView::MissingMatchTerms(t) => "rule '"@ + t + "' must define match terms"@,
        PolicyParseErrorView::MissingExamples(t) => "rule '"@ + t + "' must define examples"@,
    }
}

impl PolicyParseError {
    /// The text of the error.
    pub fn message(&self) -> (r: String)
        ensures
            r@ == parse_error_text(self@),
    {
        match self {
            PolicyParseError::MissingFrontmatterStart => "policy must start with YAML frontmatter".to_string(),
            PolicyParseError::MissingFrontmatter => "missing YAML frontmatter section".to_string(),
            PolicyParseError::MissingBody => "missing markdown body after frontmatter".to_string(),
            PolicyParseError::InvalidFrontmatter(m) => m.clone(),
            PolicyParseError::NoRules => "policy file must contain at least one rule section".to_string(),
            PolicyParseError::MissingId(t) => quoted_rule_error(t.as_str(), "' missing '- id:' line"),
            PolicyParseError::MissingMatchTerms(t) => quoted_rule_error(t.as_str(), "' must define match terms"),
            PolicyParseError::MissingExamples(t) => quoted_rule_error(t.as_str(), "' must define examples"),
        }
    }
}

fn quoted_rule_error(title: &str, tail: &str) -> (r: String)
    ensures
        r@ == "rule '"@ + title@ + tail@,
{
    let mut v = chars_of("rule '");
    append_str(&mut v, title);
    append_str(&mut v, tail);
    string_of(&v)
}

// ---------------------------------------------------------------------------
// Frontmatter
// ---------------------------------------------------------------------------

/// The frontmatter delimiter.
pub open spec fn delimiter() -> Seq<char> {
    "---"@
}

/// The document split at its first two `---` delimiters
/// (`content.splitn(3, "---")`): the frontmatter text and the body text.
pub open spec fn frontmatter_split(content: Seq<char>) -> Result<(Seq<char>, Seq<char>), PolicyParseErrorView> {
    let d = delimiter();
    match find(content, d) {
        None => if trim(content).len() != 0 {
            Err(PolicyParseErrorView::MissingFrontmatterStart)
        } else {
            Err(PolicyParseErrorView::MissingFrontmatter)
        },
        Some(i) => if trim(content.take(i)).len() != 0 {
            Err(PolicyParseErrorView::MissingFrontmatterStart)
        } else {
            let rest = content.skip(i + d.len());
            match find(rest, d) {
                None => Err(PolicyParseErrorView::MissingBody),
                Some(j) => Ok((rest.take(j), rest.skip(j + d.len()))),
            }
        },
    }
}

/// Splits a policy document into its frontmatter text and its body text.
pub fn split_frontmatter(content: &str) -> (r: Result<(String, String), PolicyParseError>)
    ensures
        r matches Ok((f, b)) ==> frontmatter_split(content@) == Ok::<(Seq<char>, Seq<char>), PolicyParseErrorView>((f@, b@)),
        r matches Err(e) ==> frontmatter_split(content@) == Err::<(Seq<char>, Seq<char>), PolicyParseErrorView>(e@),
{
    let c = chars_of(content);
    let d = chars_of("---");
    match find_chars(&c, &d) {
        None => {
            if is_blank(&c) {
                Err(PolicyParseError::MissingFrontmatter)
            } else {
                Err(PolicyParseError::MissingFrontmatterStart)
            }
        },
        Some(i) => {
            proof {
                lemma_find(c@, d@);
            }
            let leading = slice_to_vec(&c, 0, i);
            assert(leading@ =~= c@.take(i as int));
            if !is_blank(&leading) {
                return Err(PolicyParseError::MissingFrontmatterStart);
            }
            assert(matches_at(c@, d@, i as int));
            assert(i + d@.len() <= c@.len());
            assert(d@.len() == d.len());
            let dl = d.len();
            assert(i + dl <= c.len());
            let start = i + dl;
            let rest = slice_to_vec(&c, start, c.len());
            assert(rest@ =~= c@.skip(i + d@.len()));
            assert(rest@ == c@.skip(i + delimiter().len()));
            match find_chars(&rest, &d) {
                None => Err(PolicyParseError::MissingBody),
                Some(j) => {
                    proof {
                        lemma_find(rest@, d@);
                    }
                    assert(matches_at(rest@, d@, j as int));
                    let f = slice_to_vec(&rest, 0, j);
                    let b = slice_to_vec(&rest, j + d.len(), rest.len());
                    assert(f@ =~= rest@.take(j as int));
                    assert(b@ =~= rest@.skip(j + d@.len()));
                    Ok((string_of(&f), string_of(&b)))
                },
            }
        },
    }
}


// ---------------------------------------------------------------------------
// Rule sections
// ---------------------------------------------------------------------------

/// The subsection of a rule that bullet items currently go to.
#[derive(Clone, Copy, PartialEq, Eq, Structural)]
pub enum Section {
    Unset,
    Match,
    Examples,
    Notes,
}

/// What has been read of a rule section so far.
pub struct RuleScan {
    pub id: Option<Seq<char>>,
    pub section: Section,
    pub match_terms: Seq<Seq<char>>,
    pub examples: Seq<Seq<char>>,
    pub notes: Seq<Seq<char>>,
}

/// The state before any line of a rule section is read.
pub open spec fn rule_scan_start() -> RuleScan {
    RuleScan { id: None, section: Section::Unset, match_terms: seq![], examples: seq![], notes: seq![] }
}

/// Reads one line of a rule section. The line is trimmed; `- id:` sets the id, the
/// three subsection headings (ASCII case-insensitive) switch the subsection, and a
/// `- ` bullet adds its trimmed text to the current subsection, if any.
pub open spec fn rule_scan_line(st: RuleScan, raw: Seq<char>) -> RuleScan {
    let line = trim(raw);
    if strip_prefix(line, "- id:"@) is Some {
        RuleScan { id: Some(trim(strip_prefix(line, "- id:"@)->0)), ..st }
    } else if eq_ignore_ascii_case(line, "### Match"@) {
        RuleScan { section: Section::Match, ..st }
    } else if eq_ignore_ascii_case(line, "### Examples"@) {
        RuleScan { section: Section::Examples, ..st }
    } else if eq_ignore_ascii_case(line, "### Notes"@) {
        RuleScan { section: Section::Notes, ..st }
    } else if strip_prefix(line, "- "@) is Some {
        let v = trim(strip_prefix(line, "- "@)->0);
        match st.section {
            Section::Match => RuleScan { match_terms: st.match_terms.push(v), ..st },
            Section::Examples => RuleScan { examples: st.examples.push(v), ..st },
            Section::Notes => RuleScan { notes: st.notes.push(v), ..st },
            Section::Unset => st,
        }
    } else {
        st
    }
}

/// Reads the given lines of a rule section in order.
pub open spec fn rule_scan(ls: Seq<Seq<char>>) -> RuleScan
    decreases ls.len(),
{
    if ls.len() == 0 {
        rule_scan_start()
    } else {
        rule_scan_line(rule_scan(ls.drop_last()), ls.last())
    }
}

/// The rule that a section with this title and body text defines, or why it is rejected.
pub open spec fn rule_block(title: Seq<char>, body: Seq<char>) -> Result<RuleView, PolicyParseErrorView> {
    let st = rule_scan(lines(body));
    if st.id is None {
        Err(PolicyParseErrorView::MissingId(title))
    } else if st.match_terms.len() == 0 {
        Err(PolicyParseErrorView::MissingMatchTerms(title))
    } else if st.examples.len() == 0 {
        Err(PolicyParseErrorView::MissingExamples(title))
    } else {
        Ok(
            RuleView {
                id: st.id->0,
                title: title,
                match_terms: st.match_terms,
                examples: st.examples,
                notes: if st.notes.len() == 0 {
                    None
                } else {
                    Some(join(st.notes, seq!['\n']))
                },
            },
        )
    }
}

/// Pushes a trimmed character buffer onto a list.
fn push_trimmed(list: &mut Vec<Vec<char>>, v: &[char])
    ensures
        vecs_view(final(list)@) == vecs_view(old(list)@).push(trim(v@)),
{
    let ghost before = vecs_view(list@);
    let t = trim_vec(v);
    list.push(t);
    assert(vecs_view(list@) =~= before.push(trim(v@)));
}

/// Parses one `## ` section of a policy body into a rule.
pub fn parse_rule_block(title: &str, body: &str) -> (r: Result<PolicyRule, PolicyParseError>)
    ensures
        r matches Ok(rule) ==> rule_block(title@, body@) == Ok::<RuleView, PolicyParseErrorView>(rule@),
        r matches Err(e) ==> rule_block(title@, body@) == Err::<RuleView, PolicyParseErrorView>(e@),
{
    let bv = chars_of(body);
    let ls = split_lines(&bv);
    let ghost lv = vecs_view(ls@);
    let p_id = chars_of("- id:");
    let p_item = chars_of("- ");
    let h_match = chars_of("### Match");
    let h_examples = chars_of("### Examples");
    let h_notes = chars_of("### Notes");
    let mut id: Option<Vec<char>> = None;
    let mut section = Section::Unset;
    let mut match_terms: Vec<Vec<char>> = Vec::new();
    let mut examples: Vec<Vec<char>> = Vec::new();
    let mut notes: Vec<Vec<char>> = Vec::new();
    let mut i: usize = 0;
    assert(lv.take(0) =~= seq![]);
    while i < ls.len()
        invariant
            i <= ls.len(),
            lv == vecs_view(ls@),
            lv == lines(bv@),
            bv@ == body@,
            p_id@ == "- id:"@,
            p_item@ == "- "@,
            h_match@ == "### Match"@,
            h_examples@ == "### Examples"@,
            h_notes@ == "### Notes"@,
            ({
                let st = rule_scan(lv.take(i as int));
                &&& st.id == (match id {
                    Some(v) => Some(v@),
                    None => None::<Seq<char>>,
                })
                &&& st.section == section
                &&& st.match_terms == vecs_view(match_terms@)
                &&& st.examples == vecs_view(examples@)
                &&& st.notes == vecs_view(notes@)
            }),
        decreases ls.len() - i,
    {
        proof {
            assert(lv.take(i + 1).drop_last() =~= lv.take(i as int));
            assert(lv.take(i + 1).last() == ls[i as int]@);
        }
        let line = trim_vec(ls[i].as_slice());
        if let Some(v) = strip_prefix_chars(&line, &p_id) {
            id = Some(trim_vec(&v));
        } else if eq_ignore_case(&line, &h_match) {
            section = Section::Match;
        } else if eq_ignore_case(&line, &h_examples) {
            section = Section::Examples;
        } else if eq_ignore_case(&line, &h_notes) {
            section = Section::Notes;
        } else if let Some(v) = strip_prefix_chars(&line, &p_item) {
            match section {
                Section::Match => push_trimmed(&mut match_terms, &v),
                Section::Examples => push_trimmed(&mut examples, &v),
                Section::Notes => push_trimmed(&mut notes, &v),
                Section::Unset => {},
            }
        }
        i = i + 1;
    }
    assert(lv.take(ls.len() as int) =~= lv);
    let id = match id {
        None => {
            return Err(PolicyParseError::MissingId(title.to_owned()));
        },
        Some(v) => v,
    };
    if match_terms.len() == 0 {
        return Err(PolicyParseError::MissingMatchTerms(title.to_owned()));
    }
    if examples.len() == 0 {
        return Err(PolicyParseError::MissingExamples(title.to_owned()));
    }
    let notes_text = if notes.len() == 0 {
        None
    } else {
        let sep = vec!['\n'];
        assert(sep@ =~= seq!['\n']);
        let joined = join_vecs(&notes, &sep);
        Some(string_of(&joined))
    };
    Ok(
        PolicyRule {
            id: string_of(&id),
            title: title.to_owned(),
            match_terms: strings_of(&match_terms),
            examples: strings_of(&examples),
            notes: notes_text,
        },
    )
}


// ---------------------------------------------------------------------------
// Document body
// ---------------------------------------------------------------------------

/// What has been read of a policy body so far: the rules closed so far, the title
/// and collected lines of the open section, and the first error met, if any.
pub struct BodyScan {
    pub failed: Option<PolicyParseErrorView>,
    pub rules: Seq<RuleView>,
    pub title: Option<Seq<char>>,
    pub lines: Seq<Seq<char>>,
}

/// The state before any line of the body is read.
pub open spec fn body_scan_start() -> BodyScan {
    BodyScan { failed: None, rules: seq![], title: None, lines: seq![] }
}

/// Closes the open section, if any, turning its lines into a rule.
pub open spec fn close_section(st: BodyScan) -> BodyScan {
    match st.title {
        None => st,
        Some(t) => match rule_block(t, join(st.lines, seq!['\n'])) {
            Ok(r) => BodyScan { failed: None, rules: st.rules.push(r), title: None, lines: seq![] },
            Err(e) => BodyScan { failed: Some(e), ..st },
        },
    }
}

/// Reads one body line: a `## ` line closes the open section and opens a new one
/// titled by the trimmed rest of the line; other lines are collected into the open
/// section, and lines before the first section are ignored.
pub open spec fn body_scan_line(st: BodyScan, line: Seq<char>) -> BodyScan {
    if st.failed is Some {
        st
    } else if strip_prefix(line, "## "@) is Some {
        let c = close_section(st);
        if c.failed is Some {
            c
        } else {
            BodyScan { title: Some(trim(strip_prefix(line, "## "@)->0)), lines: seq![], ..c }
        }
    } else if st.title is Some {
        BodyScan { lines: st.lines.push(line), ..st }
    } else {
        st
    }
}

/// Reads the given body lines in order.
pub open spec fn body_scan(ls: Seq<Seq<char>>) -> BodyScan
    decreases ls.len(),
{
    if ls.len() == 0 {
        body_scan_start()
    } else {
        body_scan_line(body_scan(ls.drop_last()), ls.last())
    }
}

/// The rules of a policy body, or the first reason it is rejected.
pub open spec fn policy_rules(body: Seq<char>) -> Result<Seq<RuleView>, PolicyParseErrorView> {
    let st = body_scan(lines(body));
    if st.failed is Some {
        Err(st.failed->0)
    } else {
        let c = close_section(st);
        if c.failed is Some {
            Err(c.failed->0)
        } else if c.rules.len() == 0 {
            Err(PolicyParseErrorView::NoRules)
        } else {
            Ok(c.rules)
        }
    }
}

proof fn lemma_body_failure_persists(ls: Seq<Seq<char>>, i: int)
    requires
        0 <= i <= ls.len(),
        body_scan(ls.take(i)).failed is Some,
    ensures
        body_scan(ls).failed == body_scan(ls.take(i)).failed,
    decreases ls.len() - i,
{
    if i < ls.len() {
        assert(ls.take(i + 1).drop_last() =~= ls.take(i));
        lemma_body_failure_persists(ls, i + 1);
    } else {
        assert(ls.take(i) =~= ls);
    }
}

/// The option of a character buffer, as a value.
pub open spec fn opt_vec_view(o: Option<Vec<char>>) -> Option<Seq<char>> {
    match o {
        Some(v) => Some(v@),
        None => None,
    }
}

/// Parses the open section, given its title and collected lines, into a rule.
fn close_open_section(title: &Vec<char>, acc: &Vec<Vec<char>>) -> (r: Result<PolicyRule, PolicyParseError>)
    ensures
        r matches Ok(rule) ==> rule_block(title@, join(vecs_view(acc@), seq!['\n'])) == Ok::<RuleView, PolicyParseErrorView>(rule@),
        r matches Err(e) ==> rule_block(title@, join(vecs_view(acc@), seq!['\n'])) == Err::<RuleView, PolicyParseErrorView>(e@),
{
    let sep = vec!['\n'];
    assert(sep@ =~= seq!['\n']);
    let joined = join_vecs(acc, &sep);
    let t = string_of(title.as_slice());
    let b = string_of(&joined);
    parse_rule_block(t.as_str(), b.as_str())
}

/// Parses the body of a policy document into its rules.
pub fn parse_policy_rules(body: &str) -> (r: Result<Vec<PolicyRule>, PolicyParseError>)
    ensures
        r matches Ok(v) ==> policy_rules(body@) == Ok::<Seq<RuleView>, PolicyParseErrorView>(rules_view(v@)),
        r matches Err(e) ==> policy_rules(body@) == Err::<Seq<RuleView>, PolicyParseErrorView>(e@),
{
    let bv = chars_of(body);
    let ls = split_lines(&bv);
    let ghost lv = vecs_view(ls@);
    let p_head = chars_of("## ");
    let mut rules: Vec<PolicyRule> = Vec::new();
    let mut title: Option<Vec<char>> = None;
    let mut acc: Vec<Vec<char>> = Vec::new();
    let mut i: usize = 0;
    assert(lv.take(0) =~= seq![]);
    while i < ls.len()
        invariant
            i <= ls.len(),
            lv == vecs_view(ls@),
            lv == lines(bv@),
            bv@ == body@,
            p_head@ == "## "@,
            ({
                let st = body_scan(lv.take(i as int));
                &&& st.failed is None
                &&& st.rules == rules_view(rules@)
                &&& st.title == opt_vec_view(title)
                &&& st.lines == vecs_view(acc@)
            }),
        decreases ls.len() - i,
    {
        proof {
            assert(lv.take(i + 1).drop_last() =~= lv.take(i as int));
            assert(lv.take(i + 1).last() == ls[i as int]@);
        }
        let line = &ls[i];
        if let Some(rest) = strip_prefix_chars(line.as_slice(), &p_head) {
            match &title {
                Some(t) => {
                    match close_open_section(t, &acc) {
                        Ok(rule) => {
                            let ghost before = rules_view(rules@);
                            rules.push(rule);
                            assert(rules_view(rules@) =~= before.push(rule@));
                        },
                        Err(e) => {
                            proof {
                                lemma_body_failure_persists(lv, i + 1);
                            }
                            return Err(e);
                        },
                    }
                },
                None => {},
            }
            title = Some(trim_vec(&rest));
            acc = Vec::new();
            proof {
                assert(vecs_view(acc@) =~= seq![]);
            }
        } else if title.is_some() {
            let ghost before = vecs_view(acc@);
            let copy = slice_to_vec(line.as_slice(), 0, line.len());
            assert(line@.subrange(0, line@.len() as int) =~= line@);
            acc.push(copy);
            assert(vecs_view(acc@) =~= before.push(line@));
        }
        i = i + 1;
    }
    assert(lv.take(ls.len() as int) =~= lv);
    match &title {
        Some(t) => {
            match close_open_section(t, &acc) {
                Ok(rule) => {
                    let ghost before = rules_view(rules@);
                    rules.push(rule);
                    assert(rules_view(rules@) =~= before.push(rule@));
                },
                Err(e) => {
                    return Err(e);
                },
            }
        },
        None => {},
    }
    if rules.len() == 0 {
        return Err(PolicyParseError::NoRules);
    }
    Ok(rules)
}

/// Builds a policy document from its decoded frontmatter and its body text: a
/// frontmatter error is reported first, then any error of the body.
pub fn assemble_policy(meta: Result<PolicyDocumentMeta, String>, body: &str) -> (r: Result<PolicyDocument, PolicyParseError>)
    ensures
        meta matches Err(m) ==> r matches Err(e) && e@ == PolicyParseErrorView::InvalidFrontmatter(m@),
        meta matches Ok(md) ==> match r {
            Ok(doc) => policy_rules(body@) == Ok::<Seq<RuleView>, PolicyParseErrorView>(rules_view(doc.rules@))
                && doc.meta.name@ == md.name@ && opt_view(doc.meta.description) == opt_view(md.description),
            Err(e) => policy_rules(body@) == Err::<Seq<RuleView>, PolicyParseErrorView>(e@),
        },
{
    match meta {
        Err(m) => Err(PolicyParseError::InvalidFrontmatter(m)),
        Ok(md) => {
            let rules = parse_policy_rules(body)?;
            Ok(PolicyDocument { meta: md, rules })
        },
    }
}

/// The line, trimmed, is the `### Match` heading (in any ASCII case).
pub open spec fn is_match_heading(line: Seq<char>) -> bool {
    eq_ignore_ascii_case(trim(line), "### Match"@)
}

/// The line, trimmed, is a `- ` bullet and not an `- id:` line.
pub open spec fn is_bullet_line(line: Seq<char>) -> bool {
    strip_prefix(trim(line), "- "@) is Some && strip_prefix(trim(line), "- id:"@) is None
}

/// The text of a bullet line: what follows `- `, trimmed.
pub open spec fn bullet_text(line: Seq<char>) -> Seq<char> {
    trim(strip_prefix(trim(line), "- "@)->0)
}

/// The texts of bullet lines, in order.
pub open spec fn bullet_texts(ls: Seq<Seq<char>>) -> Seq<Seq<char>> {
    ls.map_values(|l: Seq<char>| bullet_text(l))
}

/// A line that reads as a `###` heading is neither a bullet nor an id line.
proof fn lemma_heading_is_not_bullet(line: Seq<char>, heading: Seq<char>)
    requires
        eq_ignore_ascii_case(line, heading),
        heading.len() > 0,
        heading[0] == '#',
    ensures
        strip_prefix(line, "- "@) is None,
        strip_prefix(line, "- id:"@) is None,
{
    reveal_strlit("- ");
    reveal_strlit("- id:");
    assert(line.len() == heading.len());
    assert(ascii_lower_code(line[0]) == ascii_lower_code(heading[0]));
    if starts_with(line, "- "@) {
        assert(line[0int + 0int] == "- "@[0int]);
        assert(false);
    }
    if starts_with(line, "- id:"@) {
        assert(line[0int + 0int] == "- id:"@[0int]);
        assert(false);
    }
}

/// Reading lines that hold no `### Match` heading, from outside the Match
/// subsection, adds no match term and stays outside it.
proof fn lemma_scan_without_match_heading(xs: Seq<Seq<char>>, ys: Seq<Seq<char>>)
    requires
        rule_scan(xs).section != Section::Match,
        forall|j: int| 0 <= j < ys.len() ==> !is_match_heading(#[trigger] ys[j]),
    ensures
        rule_scan(xs + ys).match_terms == rule_scan(xs).match_terms,
        rule_scan(xs + ys).section != Section::Match,
    decreases ys.len(),
{
    if ys.len() == 0 {
        assert(xs + ys =~= xs);
    } else {
        lemma_scan_without_match_heading(xs, ys.drop_last());
        assert((xs + ys).drop_last() =~= xs + ys.drop_last());
        assert((xs + ys).last() == ys.last());
        assert(!is_match_heading(ys[ys.len() - 1]));
    }
}

/// After a `### Match` heading, each bullet line adds its text to the match terms,
/// in order, and the scan stays in the Match subsection.
proof fn lemma_scan_after_match_heading(pre: Seq<Seq<char>>, h: Seq<char>, bs: Seq<Seq<char>>)
    requires
        is_match_heading(h),
        forall|j: int| 0 <= j < bs.len() ==> is_bullet_line(#[trigger] bs[j]),
    ensures
        rule_scan(pre + seq![h] + bs).match_terms == rule_scan(pre).match_terms + bullet_texts(bs),
        rule_scan(pre + seq![h] + bs).section == Section::Match,
    decreases bs.len(),
{
    reveal_strlit("### Match");
    reveal_strlit("### Examples");
    reveal_strlit("### Notes");
    let xs = pre + seq![h] + bs;
    if bs.len() == 0 {
        assert(xs.drop_last() =~= pre);
        assert(xs.last() == h);
        lemma_heading_is_not_bullet(trim(h), "### Match"@);
        assert(bullet_texts(bs) =~= seq![]);
        assert(rule_scan(pre).match_terms + bullet_texts(bs) =~= rule_scan(pre).match_terms);
    } else {
        let init = bs.drop_last();
        assert forall|j: int| 0 <= j < init.len() implies is_bullet_line(#[trigger] init[j]) by {
            assert(init[j] == bs[j]);
        }
        lemma_scan_after_match_heading(pre, h, init);
        assert(xs.drop_last() =~= pre + seq![h] + init);
        let b = bs.last();
        assert(xs.last() == b);
        assert(is_bullet_line(bs[bs.len() - 1]));
        let t = trim(b);
        if eq_ignore_ascii_case(t, "### Match"@) {
            lemma_heading_is_not_bullet(t, "### Match"@);
        }
        if eq_ignore_ascii_case(t, "### Examples"@) {
            lemma_heading_is_not_bullet(t, "### Examples"@);
        }
        if eq_ignore_ascii_case(t, "### Notes"@) {
            lemma_heading_is_not_bullet(t, "### Notes"@);
        }
        assert(bullet_texts(bs) =~= bullet_texts(init).push(bullet_text(b)));
        assert(rule_scan(pre).match_terms + bullet_texts(bs) =~= (rule_scan(pre).match_terms + bullet_texts(init)).push(
            bullet_text(b),
        ));
    }
}

/// The match terms of a rule are exactly the texts of the bullet lines of its
/// `### Match` subsection, trimmed and in order, as many terms as bullets: for a
/// body whose lines are some lines without a `### Match` heading, the heading, the
/// bullets, and then nothing or an `### Examples` or `### Notes` heading followed by
/// lines without a `### Match` heading.
pub proof fn lemma_match_bullets_are_the_match_terms(
    title: Seq<char>,
    body: Seq<char>,
    pre: Seq<Seq<char>>,
    h: Seq<char>,
    bs: Seq<Seq<char>>,
    post: Seq<Seq<char>>,
)
    requires
        lines(body) == pre + seq![h] + bs + post,
        is_match_heading(h),
        forall|j: int| 0 <= j < bs.len() ==> is_bullet_line(#[trigger] bs[j]),
        forall|j: int| 0 <= j < pre.len() ==> !is_match_heading(#[trigger] pre[j]),
        forall|j: int| 0 <= j < post.len() ==> !is_match_heading(#[trigger] post[j]),
        post.len() > 0 ==> eq_ignore_ascii_case(trim(post[0]), "### Examples"@) || eq_ignore_ascii_case(
            trim(post[0]),
            "### Notes"@,
        ),
    ensures
        rule_scan(lines(body)).match_terms == bullet_texts(bs),
        rule_block(title, body) matches Ok(r) ==> r.match_terms == bullet_texts(bs),
        rule_block(title, body) matches Ok(r) ==> r.match_terms.len() == bs.len(),
{
    reveal_strlit("### Match");
    reveal_strlit("### Examples");
    reveal_strlit("### Notes");
    let empty: Seq<Seq<char>> = seq![];
    lemma_scan_without_match_heading(empty, pre);
    assert(empty + pre =~= pre);
    lemma_scan_after_match_heading(pre, h, bs);
    assert(seq![] + bullet_texts(bs) =~= bullet_texts(bs));
    let xs = pre + seq![h] + bs;
    if post.len() == 0 {
        assert(lines(body) =~= xs);
    } else {
        let first = post[0];
        let t = trim(first);
        if eq_ignore_ascii_case(t, "### Examples"@) {
            lemma_heading_is_not_bullet(t, "### Examples"@);
        } else {
            lemma_heading_is_not_bullet(t, "### Notes"@);
        }
        assert(!is_match_heading(post[0]));
        let ys = xs.push(first);
        assert(ys.drop_last() =~= xs);
        lemma_scan_without_match_heading(ys, post.drop_first());
        assert(ys + post.drop_first() =~= xs + post);
        assert(lines(body) =~= ys + post.drop_first());
    }
}

} // verus!
