//! Checking text: what is asked of the server, and what is made of its answer.
use vstd::prelude::*;
use vstd::string::*;
use crate::error::Error;
use crate::state::{EngineState, SharedState};
use crate::{state, text};

verus! {

/// How long a check may take.
pub const CHECK_TIMEOUT_SECS: u64 = 30;

/// A grammar match returned by LanguageTool, with character-normalized offsets.
#[derive(Debug)]
pub struct GrammarMatch {
    /// Character offset into the checked text (from 0, in characters, not bytes).
    pub offset: usize,
    /// Length in characters.
    pub length: usize,
    pub message: String,
    pub short_message: String,
    pub replacements: Vec<String>,
    pub rule_id: String,
    pub category_id: String,
    pub category_name: String,
    /// Such as "grammar", "style", "misspelling" or "typographical".
    pub issue_type: String,
}

impl Clone for GrammarMatch {
    fn clone(&self) -> (res: Self)
        ensures
            res.offset == self.offset,
            res.length == self.length,
            res.message == self.message,
            res.short_message == self.short_message,
            res.replacements@ == self.replacements@,
            res.rule_id == self.rule_id,
            res.category_id == self.category_id,
            res.category_name == self.category_name,
            res.issue_type == self.issue_type,
    {
        GrammarMatch {
            offset: self.offset,
            length: self.length,
            message: self.message.clone(),
            short_message: self.short_message.clone(),
            replacements: text::clone_strings(&self.replacements),
            rule_id: self.rule_id.clone(),
            category_id: self.category_id.clone(),
            category_name: self.category_name.clone(),
            issue_type: self.issue_type.clone(),
        }
    }
}

/// The answer of the server to a check.
#[derive(Debug)]
pub struct LtResponse {
    pub matches: Vec<LtMatch>,
}

/// One match in the answer of the server.
#[derive(Debug)]
pub struct LtMatch {
    pub message: String,
    pub short_message: String,
    pub replacements: Vec<LtReplacement>,
    pub offset: usize,
    pub length: usize,
    pub rule: LtRule,
}

/// A suggestion of the server.
#[derive(Debug)]
pub struct LtReplacement {
    pub value: String,
}

/// The rule that a match comes from.
#[derive(Debug)]
pub struct LtRule {
    pub id: String,
    pub issue_type: String,
    pub category: LtCategory,
}

/// The category of a rule.
#[derive(Debug)]
pub struct LtCategory {
    pub id: String,
    pub name: String,
}

/// A form to be posted to the server, and how long that may take.
#[derive(Debug)]
pub struct CheckRequest {
    pub url: String,
    pub params: Vec<(String, String)>,
    pub timeout_secs: u64,
}

/// The texts of the fields of a form.
pub open spec fn param_texts(params: Seq<(String, String)>) -> Seq<(Seq<char>, Seq<char>)> {
    params.map_values(|p: (String, String)| (p.0@, p.1@))
}

/// The URL of a path on the server, which listens on the loopback interface only.
pub open spec fn server_url(port: u16, path: Seq<char>) -> Seq<char> {
    "http://127.0.0.1:"@ + text::decimal(port as nat) + path
}

/// The URL of a path on the server.
pub fn local_url(port: u16, path: &str) -> (res: String)
    ensures
        res@ == server_url(port, path@),
{
    let mut url: String = text::concat(
        "http://127.0.0.1:",
        text::format_u64(port as u64).as_str(),
    );
    url.append(path);
    url
}

/// The field that lists what is switched off, where anything is.
pub open spec fn list_param(name: Seq<char>, list: Seq<Seq<char>>) -> Seq<(Seq<char>, Seq<char>)> {
    if list.len() == 0 {
        Seq::empty()
    } else {
        seq![(name, text::separated(list, ","@))]
    }
}

/// The fields of the form that asks for a check.
pub open spec fn check_params(
    text: Seq<char>,
    language: Seq<char>,
    disabled_rules: Seq<Seq<char>>,
    disabled_categories: Seq<Seq<char>>,
) -> Seq<(Seq<char>, Seq<char>)> {
    seq![("text"@, text), ("language"@, language)] + list_param("disabledRules"@, disabled_rules)
        + list_param("disabledCategories"@, disabled_categories)
}

/// Whether a request asks the server at `port` for that check.
pub open spec fn is_check_request(
    request: CheckRequest,
    port: u16,
    text: Seq<char>,
    language: Seq<char>,
    disabled_rules: Seq<Seq<char>>,
    disabled_categories: Seq<Seq<char>>,
) -> bool {
    &&& request.url@ == server_url(port, "/v2/check"@)
    &&& param_texts(request.params@) == check_params(
        text,
        language,
        disabled_rules,
        disabled_categories,
    )
    &&& request.timeout_secs == 30
}

/// Whether an error says that the engine was not ready in that state.
pub open spec fn is_not_ready(error: Error, engine_state: EngineState) -> bool {
    error matches Error::NotReady { state } && state@ == state::state_text(engine_state)
}

/// The smaller of two numbers.
pub open spec fn smaller(a: int, b: int) -> int {
    if a <= b {
        a
    } else {
        b
    }
}

/// Whether a match is what the server reported, with its place clamped to the text.
pub open spec fn is_converted(res: GrammarMatch, m: LtMatch, text: Seq<char>) -> bool {
    &&& res.offset == smaller(m.offset as int, text.len() as int)
    &&& res.length == smaller(m.length as int, text.len() - res.offset)
    &&& res.message == m.message
    &&& res.short_message == m.short_message
    &&& res.replacements@ == m.replacements@.map_values(|r: LtReplacement| r.value)
    &&& res.rule_id == m.rule.id
    &&& res.category_id == m.rule.category.id
    &&& res.category_name == m.rule.category.name
    &&& res.issue_type == m.rule.issue_type
}

/// Makes a grammar match out of what the server reported.
///
/// The server counts `offset` and `length` in characters, as a grammar match does. They are
/// clamped to the characters that the text has.
pub fn convert_match(m: LtMatch, text: &str) -> (res: GrammarMatch)
    ensures
        is_converted(res, m, text@),
{
    let total_chars: usize = text.unicode_len();
    let offset: usize = if m.offset <= total_chars { m.offset } else { total_chars };
    let rest: usize = total_chars - offset;
    let length: usize = if m.length <= rest { m.length } else { rest };
    let mut replacements: Vec<String> = Vec::new();
    for r in it: m.replacements
        invariant
            it.seq() == m.replacements@,
            replacements@ == m.replacements@.map_values(|r: LtReplacement| r.value).take(
                it.index() as int,
            ),
    {
        replacements.push(r.value);
    }
    assert(replacements@ =~= m.replacements@.map_values(|r: LtReplacement| r.value));
    GrammarMatch {
        offset,
        length,
        message: m.message,
        short_message: m.short_message,
        replacements,
        rule_id: m.rule.id,
        category_id: m.rule.category.id,
        category_name: m.rule.category.name,
        issue_type: m.rule.issue_type,
    }
}

/// Whether matches are those of an answer of the server, one for each and in its order.
pub open spec fn is_answer(res: Seq<GrammarMatch>, response: LtResponse, text: Seq<char>) -> bool {
    &&& res.len() == response.matches@.len()
    &&& forall|i: int|
        0 <= i < res.len() ==> is_converted(#[trigger] res[i], response.matches@[i], text)
}

/// Makes grammar matches out of the answer of the server, one for each match and in its order.
pub fn convert_response(response: LtResponse, text: &str) -> (res: Vec<GrammarMatch>)
    ensures
        is_answer(res@, response, text@),
{
    let mut res: Vec<GrammarMatch> = Vec::new();
    for m in it: response.matches
        invariant
            it.seq() == response.matches@,
            res@.len() == it.index(),
            forall|i: int|
                0 <= i < res@.len() ==> is_converted(
                    #[trigger] res@[i],
                    response.matches@[i],
                    text@,
                ),
    {
        res.push(convert_match(m, text));
    }
    res
}

/// A client of the server that listens on a port of the loopback interface.
#[derive(Debug)]
pub struct LtClient {
    pub port: u16,
}

impl LtClient {
    /// A client of the server at `port`.
    pub fn new(port: u16) -> (res: Self)
        ensures
            res.port == port,
    {
        LtClient { port }
    }

    /// The request that checks a text, if the engine is ready for it.
    pub fn check(
        &self,
        text: &str,
        language: &str,
        disabled_rules: &[String],
        disabled_categories: &[String],
        shared: &SharedState,
    ) -> (res: Result<CheckRequest, Error>)
        ensures
            res is Ok <==> shared.state == EngineState::Ready,
            res matches Ok(request) ==> is_check_request(
                request,
                self.port,
                text@,
                language@,
                text::texts(disabled_rules@),
                text::texts(disabled_categories@),
            ),
            res matches Err(e) ==> is_not_ready(e, shared.state),
    {
        if !shared.is_ready() {
            return Err(Error::NotReady { state: shared.get().to_string() });
        }
        let mut params: Vec<(String, String)> = Vec::new();
        params.push((String::from_str("text"), String::from_str(text)));
        params.push((String::from_str("language"), String::from_str(language)));
        if disabled_rules.len() > 0 {
            params.push((String::from_str("disabledRules"), text::join(disabled_rules, ",")));
        }
        if disabled_categories.len() > 0 {
            params.push(
                (String::from_str("disabledCategories"), text::join(disabled_categories, ",")),
            );
        }
        assert(param_texts(params@) =~= check_params(
            text@,
            language@,
            text::texts(disabled_rules@),
            text::texts(disabled_categories@),
        ));
        Ok(
            CheckRequest {
                url: local_url(self.port, "/v2/check"),
                params,
                timeout_secs: CHECK_TIMEOUT_SECS,
            },
        )
    }
}

/// A match never reaches beyond the text: its offset and length select characters that are there.
pub proof fn law_match_within_text(res: GrammarMatch, m: LtMatch, text: Seq<char>)
    requires
        is_converted(res, m, text),
    ensures
        res.offset + res.length <= text.len(),
{
}

/// A place that lies within the text is handed on as the server gave it.
pub proof fn law_match_kept(res: GrammarMatch, m: LtMatch, text: Seq<char>)
    requires
        is_converted(res, m, text),
        m.offset + m.length <= text.len(),
    ensures
        res.offset == m.offset,
        res.length == m.length,
{
}

/// Whatever the port and the path, the URL names the loopback interface as its host.
pub proof fn law_loopback_only(port: u16, path: Seq<char>)
    ensures
        "http://127.0.0.1:"@.is_prefix_of(server_url(port, path)),
{
    assert(server_url(port, path).take("http://127.0.0.1:"@.len() as int)
        =~= "http://127.0.0.1:"@);
}

/// The form holds what the caller gave: the field `text` is the whole text, character for
/// character, so that the offsets of the answer count in it, and the field `language` is the
/// language.
pub proof fn law_form_holds_the_text(
    request: CheckRequest,
    port: u16,
    text: Seq<char>,
    language: Seq<char>,
    rules: Seq<Seq<char>>,
    categories: Seq<Seq<char>>,
)
    requires
        is_check_request(request, port, text, language, rules, categories),
    ensures
        request.params@.len() >= 2,
        request.params@[0].0@ == "text"@,
        request.params@[0].1@ == text,
        request.params@[0].1@.len() == text.len(),
        request.params@[1].0@ == "language"@,
        request.params@[1].1@ == language,
        request.timeout_secs == 30,
{
    let all = param_texts(request.params@);
    assert(all.len() == request.params@.len());
    assert(check_params(text, language, rules, categories).len() >= 2);
    assert(all[0] == (request.params@[0].0@, request.params@[0].1@));
    assert(all[1] == (request.params@[1].0@, request.params@[1].1@));
}

/// What is switched off is in a field of its own, from which the server gets back each name by
/// taking the value apart at the commas. There is no such field where nothing is switched off.
pub proof fn law_form_lists_what_is_off(
    request: CheckRequest,
    port: u16,
    text: Seq<char>,
    language: Seq<char>,
    rules: Seq<Seq<char>>,
    categories: Seq<Seq<char>>,
)
    requires
        is_check_request(request, port, text, language, rules, categories),
        forall|i: int| 0 <= i < rules.len() ==> !(#[trigger] rules[i]).contains(','),
        forall|i: int| 0 <= i < categories.len() ==> !(#[trigger] categories[i]).contains(','),
    ensures
        request.params@.len() == 2 + (if rules.len() > 0 {
            1int
        } else {
            0
        }) + (if categories.len() > 0 {
            1int
        } else {
            0
        }),
        rules.len() > 0 ==> request.params@[2].0@ == "disabledRules"@ && text::pieces(
            request.params@[2].1@,
            ',',
        ) == rules,
        categories.len() > 0 ==> request.params@.last().0@ == "disabledCategories"@
            && text::pieces(request.params@.last().1@, ',') == categories,
{
    reveal_strlit(",");
    assert(","@ =~= seq![',']);
    let params = request.params@;
    let all = param_texts(params);
    assert(all.len() == params.len());
    if rules.len() > 0 {
        text::law_separated_can_be_taken_apart(rules, ',');
        assert(all[2] == (params[2].0@, params[2].1@));
    }
    if categories.len() > 0 {
        text::law_separated_can_be_taken_apart(categories, ',');
        assert(all.last() == (params.last().0@, params.last().1@));
    }
}

/// The URL names the loopback interface, the port as a number, and the path, and nothing else.
pub proof fn law_url_names_the_port(port: u16, path: Seq<char>)
    ensures
        exists|number: Seq<char>|
            #![trigger "http://127.0.0.1:"@ + number]
            server_url(port, path) == "http://127.0.0.1:"@ + number + path && text::numeral_u32(
                number,
            ) == Some(port as u32),
{
    let number = text::decimal(port as nat);
    text::law_numeral_round_trip(port as u32);
    assert(server_url(port, path) == "http://127.0.0.1:"@ + number + path);
}

/// A request for a check goes to the path `/v2/check` of the server at its port.
pub proof fn law_check_goes_to_the_server(
    request: CheckRequest,
    port: u16,
    text: Seq<char>,
    language: Seq<char>,
    rules: Seq<Seq<char>>,
    categories: Seq<Seq<char>>,
)
    requires
        is_check_request(request, port, text, language, rules, categories),
    ensures
        exists|number: Seq<char>|
            #![trigger "http://127.0.0.1:"@ + number]
            request.url@ == "http://127.0.0.1:"@ + number + "/v2/check"@ && text::numeral_u32(
                number,
            ) == Some(port as u32),
{
    law_url_names_the_port(port, "/v2/check"@);
}

/// A match that starts beyond the text is put at its end and selects nothing, and one that starts
/// within it keeps its start and reaches as far as it did, or else to the end of the text.
pub proof fn law_match_is_clamped(res: GrammarMatch, m: LtMatch, text: Seq<char>)
    requires
        is_converted(res, m, text),
    ensures
        m.offset > text.len() ==> res.offset == text.len() && res.length == 0,
        m.offset <= text.len() ==> res.offset == m.offset,
        m.offset <= text.len() && m.offset + m.length > text.len() ==> res.offset + res.length
            == text.len(),
        res.length <= m.length,
{
}

/// Each match of the answer becomes one match, at the same place in the list, with the same
/// message, rule, category and type, and with all the suggestions in their order.
pub proof fn law_answer_is_handed_on(
    res: Seq<GrammarMatch>,
    response: LtResponse,
    text: Seq<char>,
    i: int,
    k: int,
)
    requires
        is_answer(res, response, text),
        0 <= i < response.matches@.len(),
    ensures
        res.len() == response.matches@.len(),
        res[i].message@ == response.matches@[i].message@,
        res[i].short_message@ == response.matches@[i].short_message@,
        res[i].rule_id@ == response.matches@[i].rule.id@,
        res[i].category_id@ == response.matches@[i].rule.category.id@,
        res[i].category_name@ == response.matches@[i].rule.category.name@,
        res[i].issue_type@ == response.matches@[i].rule.issue_type@,
        res[i].replacements@.len() == response.matches@[i].replacements@.len(),
        0 <= k < res[i].replacements@.len() ==> res[i].replacements@[k]@
            == response.matches@[i].replacements@[k].value@,
        res[i].offset + res[i].length <= text.len(),
        response.matches@[i].offset + response.matches@[i].length <= text.len() ==> res[i].offset
            == response.matches@[i].offset && res[i].length == response.matches@[i].length,
{
    assert(is_converted(res[i], response.matches@[i], text));
}

/// Every name that is switched off is listed, in order, whatever characters it holds, and the fields
/// are no others.
pub proof fn law_form_lists_everything(
    request: CheckRequest,
    port: u16,
    text: Seq<char>,
    language: Seq<char>,
    rules: Seq<Seq<char>>,
    categories: Seq<Seq<char>>,
)
    requires
        is_check_request(request, port, text, language, rules, categories),
    ensures
        rules.len() > 0 ==> request.params@.len() > 2 && request.params@[2].1@ == text::separated(
            rules,
            ","@,
        ),
        categories.len() > 0 ==> request.params@.last().1@ == text::separated(categories, ","@),
        rules.len() == 0 && categories.len() == 0 ==> request.params@.len() == 2,
{
    let params = request.params@;
    let all = param_texts(params);
    assert(all.len() == params.len());
    assert(check_params(text, language, rules, categories).len() >= 2);
    if rules.len() > 0 {
        assert(all[2] == (params[2].0@, params[2].1@));
    }
    if categories.len() > 0 {
        assert(all.last() == (params.last().0@, params.last().1@));
    }
}

} // verus!
