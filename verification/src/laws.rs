use vstd::prelude::*;

use crate::app::{
    ascii_lower, is_allow_key, is_quit_key, messages_grow, messages_view, usage_theme_of, with_usage,
    Key, KeyPress,
};
use crate::theme::ThemeColor;
use crate::client::{GeminiClient, StepData, reply_steps, counted, fill_key, reports_usage, taken_back, user_text_turn};
use crate::config::spec_default_api_url;
use crate::config::ButlerConfig;
use crate::models::{contents_data, Content, GeminiResponse, NamedJson, PartData};
use crate::text::{decimal, digit_char, three_digits, with_commas};

verus! {

/// A text with its thousands separators taken out.
pub open spec fn without_commas(s: Seq<char>) -> Seq<char> {
    s.filter(|c: char| c != ',')
}

proof fn decimal_has_no_commas(n: nat)
    ensures
        without_commas(decimal(n)) == decimal(n),
    decreases n,
{
    broadcast use vstd::seq_lib::group_seq_properties;

    reveal_with_fuel(Seq::filter, 2);
    if n < 10 {
        assert(seq![digit_char(n)] == Seq::<char>::empty().push(digit_char(n)));
    } else {
        decimal_has_no_commas(n / 10);
        decimal(n / 10).lemma_filter_push(digit_char(n % 10), |c: char| c != ',');
    }
}

proof fn decimal_in_groups(n: nat)
    requires
        n >= 1000,
    ensures
        decimal(n) == decimal(n / 1000) + three_digits(n % 1000),
{
    let r = n % 1000;
    let q1 = n / 10;
    let q2 = q1 / 10;
    let q3 = q2 / 10;
    assert(n == 10 * q1 + n % 10);
    assert(q1 == 10 * q2 + q1 % 10);
    assert(q2 == 10 * q3 + q2 % 10);
    assert(n == 1000 * q3 + (100 * (q2 % 10) + 10 * (q1 % 10) + n % 10));
    assert(n / 1000 == q3 && r == 100 * (q2 % 10) + 10 * (q1 % 10) + n % 10);
    assert(q1 / 10 == n / 100 && q2 / 10 == n / 1000 && q1 >= 100 && q2 >= 10);
    assert((n / 100) % 10 == r / 100 && (n / 10) % 10 == (r / 10) % 10 && n % 10 == r % 10);
    assert(decimal(n) == decimal(n / 10).push(digit_char(n % 10)));
    assert(decimal(n / 10) == decimal(n / 100).push(digit_char((n / 10) % 10)));
    assert(decimal(n / 100) == decimal(n / 1000).push(digit_char((n / 100) % 10)));
    assert(decimal(n) =~= decimal(n / 1000) + three_digits(r));
}

/// The separators only group digits: taking them out of a formatted count gives its
/// plain decimal notation.
pub proof fn commas_only_group_digits(n: nat)
    ensures
        without_commas(with_commas(n)) == decimal(n),
    decreases n,
{
    broadcast use vstd::seq_lib::group_seq_properties;

    if n < 1000 {
        decimal_has_no_commas(n);
    } else {
        let pred = |c: char| c != ',';
        let r = n % 1000;
        commas_only_group_digits(n / 1000);
        Seq::filter_distributes_over_add(with_commas(n / 1000) + seq![','], three_digits(r), pred);
        Seq::filter_distributes_over_add(with_commas(n / 1000), seq![','], pred);
        reveal_with_fuel(Seq::filter, 4);
        assert(seq![','] == Seq::<char>::empty().push(','));
        assert(seq![','].filter(pred) =~= Seq::<char>::empty());
        assert(three_digits(r) == Seq::<char>::empty().push(digit_char(r / 100)).push(
            digit_char((r / 10) % 10),
        ).push(digit_char(r % 10)));
        assert(three_digits(r).filter(pred) =~= three_digits(r));
        decimal_in_groups(n);
    }
}

/// A turn that opened with a prompt and then failed (the request could not be sent,
/// the service refused it, or the answer held no content) leaves the history as it was.
pub proof fn failed_turn_restores_history(before: Seq<Content>, opened: Seq<Content>)
    requires
        opened.len() == before.len() + 1,
        opened.drop_last() == before,
    ensures
        taken_back(opened) == before,
{
}

/// The request built right after a prompt opened its turn ends with that prompt, after
/// the whole earlier conversation.
pub proof fn request_ends_with_prompt(
    before: Seq<Content>,
    opened: Seq<Content>,
    sent: Seq<Content>,
    text: Seq<char>,
)
    requires
        opened.len() == before.len() + 1,
        opened.drop_last() == before,
        opened.last()@ == user_text_turn(text),
        contents_data(sent) == contents_data(opened),
    ensures
        contents_data(sent) == contents_data(before).push(user_text_turn(text)),
{
    assert(contents_data(opened) =~= contents_data(before).push(user_text_turn(text)));
}

/// Turns are admitted only while requests remain, and an accepted answer counts one
/// request: so the request count never passes its limit.
pub proof fn admitted_requests_stay_within_limit(config: ButlerConfig, response: GeminiResponse)
    requires
        !config.requests_exhausted(),
    ensures
        counted(config, response).requests_made <= config.request_limit,
        counted(config, response).request_limit == config.request_limit,
        request_step(config, counted(config, response)),
{
}

/// Once the interface applies the usage update of an accepted answer, it shows the
/// conversation's new counters and limits, and keeps its own names.
pub proof fn usage_update_reaches_interface(
    shown: ButlerConfig,
    kept: ButlerConfig,
    response: GeminiResponse,
)
    requires
        reports_usage(response),
    ensures
        ({
            let now = counted(kept, response);
            let updated = with_usage(
                shown,
                now.tokens_used,
                now.token_limit,
                now.requests_made,
                now.request_limit,
            );
            &&& updated.tokens_used == now.tokens_used
            &&& updated.token_limit == now.token_limit
            &&& updated.requests_made == now.requests_made
            &&& updated.request_limit == now.request_limit
            &&& updated.user_name == shown.user_name
            &&& updated.ai_name == shown.ai_name
        }),
{
}

proof fn key_fills_final_slot(prefix: Seq<char>, key: Seq<char>)
    requires
        forall|i: int| 0 <= i < prefix.len() ==> prefix[i] != '{',
    ensures
        fill_key(prefix + "{}"@, key) == prefix + key,
    decreases prefix.len(),
{
    reveal_strlit("{}");
    let t = prefix + "{}"@;
    if prefix.len() == 0 {
        assert(t =~= "{}"@);
        assert(t.skip(2) =~= Seq::<char>::empty());
        assert(fill_key(t, key) == key + fill_key(t.skip(2), key));
        assert(prefix + key =~= key);
        assert(key + Seq::<char>::empty() =~= key);
    } else {
        let rest = prefix.skip(1);
        key_fills_final_slot(rest, key);
        assert(t.skip(1) =~= rest + "{}"@);
        assert(t[0] == prefix[0]);
        assert(fill_key(t, key) == seq![t[0]] + fill_key(t.skip(1), key));
        assert(prefix + key =~= seq![prefix[0]] + (rest + key));
    }
}

/// The URL that requests go to under the default endpoint.
pub open spec fn default_request_url(key: Seq<char>) -> Seq<char> {
    "https://generativelanguage.googleapis.com/v1beta/models/gemini-2.5-flash:generateContent?key="@
        + key
}

/// With the endpoint of a new configuration, a request goes to the Gemini
/// `generateContent` address with the key as its `key` parameter.
pub proof fn default_endpoint_carries_key(key: Seq<char>)
    ensures
        fill_key(spec_default_api_url(), key) == default_request_url(key),
{
    let prefix =
        "https://generativelanguage.googleapis.com/v1beta/models/gemini-2.5-flash:generateContent?key="@;
    reveal_strlit(
        "https://generativelanguage.googleapis.com/v1beta/models/gemini-2.5-flash:generateContent?key=",
    );
    reveal_strlit(
        "https://generativelanguage.googleapis.com/v1beta/models/gemini-2.5-flash:generateContent?key={}",
    );
    reveal_strlit("{}");
    assert(spec_default_api_url() =~= prefix + "{}"@);
    assert forall|i: int| 0 <= i < prefix.len() implies prefix[i] != '{' by {
        assert(prefix[i] != '{');
    }
    key_fills_final_slot(prefix, key);
}

/// One step of the request counter: the limit is kept, and the count either stays or
/// goes up by one from a state that still had requests left (an answer accepted for
/// an admitted turn).
pub open spec fn request_step(before: ButlerConfig, after: ButlerConfig) -> bool {
    &&& after.request_limit == before.request_limit
    &&& (after.requests_made == before.requests_made || (!before.requests_exhausted()
        && after.requests_made == before.requests_made + 1))
}

/// Over any run of conversation steps, the key, tools, channel, names, endpoint and
/// allowances stay as they were, and the counters never fall.
pub proof fn conversation_keeps_settings(states: Seq<GeminiClient>)
    requires
        states.len() > 0,
        forall|i: int| 0 <= i < states.len() - 1 ==> #[trigger] states[i].keeps(states[i + 1]),
    ensures
        forall|j: int| 0 <= j < states.len() ==> #[trigger] states[0].keeps(states[j]),
    decreases states.len(),
{
    if states.len() > 1 {
        let shorter = states.drop_last();
        assert forall|i: int| 0 <= i < shorter.len() - 1 implies #[trigger] shorter[i].keeps(
            shorter[i + 1],
        ) by {
            assert(states[i].keeps(states[i + 1]));
        }
        conversation_keeps_settings(shorter);
        assert forall|j: int| 0 <= j < states.len() implies #[trigger] states[0].keeps(
            states[j],
        ) by {
            if j < states.len() - 1 {
                assert(shorter[0].keeps(shorter[j]));
            } else {
                let k = j - 1;
                assert(shorter[0].keeps(shorter[k]));
                assert(states[k].keeps(states[k + 1]));
            }
        }
    }
}

/// Over any run of counter steps, the request count never passes the larger of where
/// it started and its limit: once the allowance is spent, no further request is counted.
pub proof fn requests_never_pass_limit(configs: Seq<ButlerConfig>)
    requires
        configs.len() > 0,
        forall|i: int|
            0 <= i < configs.len() - 1 ==> #[trigger] request_step(configs[i], configs[i + 1]),
    ensures
        forall|j: int|
            0 <= j < configs.len() ==> {
                &&& #[trigger] configs[j].request_limit == configs[0].request_limit
                &&& configs[j].requests_made <= configs[0].requests_made
                    || configs[j].requests_made <= configs[0].request_limit
            },
    decreases configs.len(),
{
    if configs.len() > 1 {
        let shorter = configs.drop_last();
        assert forall|i: int| 0 <= i < shorter.len() - 1 implies #[trigger] request_step(
            shorter[i],
            shorter[i + 1],
        ) by {
            assert(request_step(configs[i], configs[i + 1]));
        }
        requests_never_pass_limit(shorter);
        let k = configs.len() - 2;
        assert(request_step(configs[k], configs[k + 1]));
        assert(shorter[k].request_limit == configs[0].request_limit);
        assert forall|j: int| 0 <= j < configs.len() implies {
            &&& #[trigger] configs[j].request_limit == configs[0].request_limit
            &&& configs[j].requests_made <= configs[0].requests_made
                || configs[j].requests_made <= configs[0].request_limit
        } by {
            if j < configs.len() - 1 {
                assert(shorter[j] == configs[j]);
                assert(shorter[j].request_limit == shorter[0].request_limit);
            }
        }
    }
}

/// Over any run of interface steps, the message list only grows at its end: every
/// earlier list is a prefix of every later one.
pub proof fn messages_only_grow(lists: Seq<Seq<(String, String)>>)
    requires
        forall|i: int| 0 <= i < lists.len() - 1 ==> #[trigger] messages_grow(lists[i], lists[i + 1]),
    ensures
        forall|i: int, j: int| 0 <= i <= j < lists.len() ==> messages_grow(#[trigger] lists[i], #[trigger] lists[j]),
    decreases lists.len(),
{
    if lists.len() > 0 {
        let shorter = lists.drop_last();
        assert forall|i: int| 0 <= i < shorter.len() - 1 implies #[trigger] messages_grow(
            shorter[i],
            shorter[i + 1],
        ) by {
            assert(messages_grow(lists[i], lists[i + 1]));
        }
        messages_only_grow(shorter);
        let last = lists.len() - 1;
        assert forall|i: int, j: int| 0 <= i <= j < lists.len() implies messages_grow(
            #[trigger] lists[i],
            #[trigger] lists[j],
        ) by {
            let a = messages_view(lists[i]);
            let c = messages_view(lists[j]);
            if j < last {
                assert(messages_grow(shorter[i], shorter[j]));
            } else if i == j {
                assert(a =~= c.subrange(0, a.len() as int));
            } else {
                let k = j - 1;
                let b = messages_view(lists[k]);
                assert(messages_grow(shorter[i], shorter[k]));
                assert(messages_grow(lists[k], lists[k + 1]));
                assert(a =~= b.subrange(0, a.len() as int));
                assert(b =~= c.subrange(0, b.len() as int));
                assert(a =~= c.subrange(0, a.len() as int));
            }
        }
    }
}

/// The calls that a list of reply steps hands on, in order.
pub open spec fn calls_of_steps(steps: Seq<StepData>) -> Seq<NamedJson>
    decreases steps.len(),
{
    if steps.len() == 0 {
        Seq::empty()
    } else {
        match steps.last() {
            StepData::Call(c) => calls_of_steps(steps.drop_last()).push(c),
            StepData::Say(_, _) => calls_of_steps(steps.drop_last()),
        }
    }
}

/// The messages that a list of reply steps shows, in order: speaker and text.
pub open spec fn says_of_steps(steps: Seq<StepData>) -> Seq<(Seq<char>, Seq<char>)>
    decreases steps.len(),
{
    if steps.len() == 0 {
        Seq::empty()
    } else {
        match steps.last() {
            StepData::Say(who, said) => says_of_steps(steps.drop_last()).push((who, said)),
            StepData::Call(_) => says_of_steps(steps.drop_last()),
        }
    }
}

/// The function calls that the parts of an answer carry, in order.
pub open spec fn calls_of_parts(parts: Seq<PartData>) -> Seq<NamedJson>
    decreases parts.len(),
{
    if parts.len() == 0 {
        Seq::empty()
    } else {
        match parts.last().function_call {
            Some(c) => calls_of_parts(parts.drop_last()).push(c),
            None => calls_of_parts(parts.drop_last()),
        }
    }
}

/// The texts that the parts of an answer carry, in order, each shown under `speaker`.
pub open spec fn texts_of_parts(parts: Seq<PartData>, speaker: Seq<char>) -> Seq<(Seq<char>, Seq<char>)>
    decreases parts.len(),
{
    if parts.len() == 0 {
        Seq::empty()
    } else {
        match parts.last().text {
            Some(t) => texts_of_parts(parts.drop_last(), speaker).push((speaker, t)),
            None => texts_of_parts(parts.drop_last(), speaker),
        }
    }
}

proof fn calls_of_steps_append(a: Seq<StepData>, b: Seq<StepData>)
    ensures
        calls_of_steps(a + b) == calls_of_steps(a) + calls_of_steps(b),
    decreases b.len(),
{
    if b.len() == 0 {
        assert(a + b =~= a);
        assert(calls_of_steps(a) + calls_of_steps(b) =~= calls_of_steps(a));
    } else {
        assert((a + b).drop_last() =~= a + b.drop_last());
        calls_of_steps_append(a, b.drop_last());
        match b.last() {
            StepData::Call(c) => {
                assert(calls_of_steps(a) + calls_of_steps(b) =~= (calls_of_steps(a)
                    + calls_of_steps(b.drop_last())).push(c));
            },
            StepData::Say(_, _) => {},
        }
    }
}

proof fn says_of_steps_append(a: Seq<StepData>, b: Seq<StepData>)
    ensures
        says_of_steps(a + b) == says_of_steps(a) + says_of_steps(b),
    decreases b.len(),
{
    if b.len() == 0 {
        assert(a + b =~= a);
        assert(says_of_steps(a) + says_of_steps(b) =~= says_of_steps(a));
    } else {
        assert((a + b).drop_last() =~= a + b.drop_last());
        says_of_steps_append(a, b.drop_last());
        match b.last() {
            StepData::Say(w, t) => {
                assert(says_of_steps(a) + says_of_steps(b) =~= (says_of_steps(a)
                    + says_of_steps(b.drop_last())).push((w, t)));
            },
            StepData::Call(_) => {},
        }
    }
}

/// Every function call in an answer is handed on, whether or not its part also has
/// text: the calls among the reply steps are exactly the calls of the parts, in order;
/// and every text is shown under the assistant's name, in order.
pub proof fn reply_hands_on_every_call_and_text(parts: Seq<PartData>, ai_name: Seq<char>)
    ensures
        calls_of_steps(reply_steps(parts, ai_name)) == calls_of_parts(parts),
        says_of_steps(reply_steps(parts, ai_name)) == texts_of_parts(parts, ai_name),
        reply_steps(parts, ai_name).len() == calls_of_parts(parts).len() + texts_of_parts(
            parts,
            ai_name,
        ).len(),
    decreases parts.len(),
{
    if parts.len() > 0 {
        let front = parts.drop_last();
        let p = parts.last();
        reply_hands_on_every_call_and_text(front, ai_name);
        let say: Seq<StepData> = match p.text {
            Some(t) => seq![StepData::Say(ai_name, t)],
            None => Seq::empty(),
        };
        let call: Seq<StepData> = match p.function_call {
            Some(c) => seq![StepData::Call(c)],
            None => Seq::empty(),
        };
        let steps = reply_steps(front, ai_name) + (say + call);
        assert(reply_steps(parts, ai_name) == steps);
        calls_of_steps_append(reply_steps(front, ai_name), say + call);
        says_of_steps_append(reply_steps(front, ai_name), say + call);
        calls_of_steps_append(say, call);
        says_of_steps_append(say, call);
        reveal_with_fuel(calls_of_steps, 2);
        reveal_with_fuel(says_of_steps, 2);
        assert(calls_of_steps(say) =~= Seq::<NamedJson>::empty());
        assert(says_of_steps(call) =~= Seq::<(Seq<char>, Seq<char>)>::empty());
        if let Some(c) = p.function_call {
            assert(call.drop_last() =~= Seq::<StepData>::empty());
            assert(calls_of_steps(call) =~= seq![c]);
        } else {
            assert(calls_of_steps(call) =~= Seq::<NamedJson>::empty());
        }
        if let Some(t) = p.text {
            assert(say.drop_last() =~= Seq::<StepData>::empty());
            assert(says_of_steps(say) =~= seq![(ai_name, t)]);
        } else {
            assert(says_of_steps(say) =~= Seq::<(Seq<char>, Seq<char>)>::empty());
        }
        assert(calls_of_steps(steps) =~= calls_of_parts(parts));
        assert(says_of_steps(steps) =~= texts_of_parts(parts, ai_name));
    }
}

/// A part's text is shown before its call is handled: a part with both gives exactly
/// the message, then the call.
pub proof fn text_comes_before_call(part: PartData, ai_name: Seq<char>, t: Seq<char>, c: NamedJson)
    requires
        part.text == Some(t),
        part.function_call == Some(c),
    ensures
        reply_steps(seq![part], ai_name) == seq![StepData::Say(ai_name, t), StepData::Call(c)],
{
    assert(seq![part].drop_last() =~= Seq::<PartData>::empty());
    assert(seq![part].last() == part);
    assert(reply_steps(seq![part], ai_name) == reply_steps(Seq::<PartData>::empty(), ai_name)
        + crate::client::part_steps(part, ai_name));
    assert(seq![StepData::Say(ai_name, t)] + seq![StepData::Call(c)] =~= seq![
        StepData::Say(ai_name, t),
        StepData::Call(c),
    ]);
    assert(Seq::<StepData>::empty() + seq![StepData::Say(ai_name, t), StepData::Call(c)] =~= seq![
        StepData::Say(ai_name, t),
        StepData::Call(c),
    ]);
}

/// Spending more never reopens an allowance: if a configuration's tokens (or requests)
/// are spent, so are they for any configuration with the same limit that has used at
/// least as many; and a configuration that has used fewer than its limit is open.
pub proof fn allowances_close_for_good(a: ButlerConfig, b: ButlerConfig)
    ensures
        a.tokens_exhausted() && b.token_limit == a.token_limit && b.tokens_used >= a.tokens_used
            ==> b.tokens_exhausted(),
        a.requests_exhausted() && b.request_limit == a.request_limit && b.requests_made
            >= a.requests_made ==> b.requests_exhausted(),
        a.tokens_used < a.token_limit ==> !a.tokens_exhausted(),
        a.requests_made < a.request_limit ==> !a.requests_exhausted(),
        a.token_limit <= a.tokens_used ==> a.tokens_exhausted(),
        a.request_limit <= a.requests_made ==> a.requests_exhausted(),
{
}

/// Only `y`, `Y` and Enter allow a shell command, with or without Control: a key allows
/// exactly when it is Enter or a character that is `y` ignoring ASCII case.
pub proof fn only_yes_allows(k: KeyPress)
    ensures
        is_allow_key(k) <==> (k.key == Key::Enter || (k.key matches Key::Char(c) && ascii_lower(c)
            == 'y')),
        is_allow_key(k) == is_allow_key(KeyPress { key: k.key, control: !k.control }),
        k.key == Key::Esc || k.key == Key::Other ==> !is_allow_key(k),
{
    if let Key::Char(c) = k.key {
        if 'A' <= c && c <= 'Z' {
            assert((((c as u32) + 32) as char) as u32 == (c as u32) + 32);
        }
    }
}

/// Without Control, only Esc quits while typing: every other key, a plain letter such
/// as `q` included, edits the line or sends it. With Control, Esc and `c` quit.
pub proof fn only_escape_and_control_c_quit(k: KeyPress)
    ensures
        !k.control ==> (is_quit_key(k) <==> k.key == Key::Esc),
        k.control ==> (is_quit_key(k) <==> (k.key == Key::Esc || k.key == Key::Char('c'))),
        k.key == Key::Enter ==> !is_quit_key(k),
{
}

/// The token count turns critical exactly above four fifths of the limit, and warns
/// exactly above half of it up to there: in whole tokens, critical when
/// `5 * used > 4 * limit`, warning when `2 * used > limit` but not critical, normal
/// otherwise.
pub proof fn usage_colour_thresholds(used: nat, limit: nat)
    ensures
        usage_theme_of(used, limit) == ThemeColor::TokensCritical <==> 5 * used > 4 * limit,
        usage_theme_of(used, limit) == ThemeColor::TokensWarning <==> (2 * used > limit && 5
            * used <= 4 * limit),
        usage_theme_of(used, limit) == ThemeColor::TokensNormal <==> 2 * used <= limit,
{
    assert(used > limit * 8 / 10 <==> 5 * used > 4 * limit);
    assert(used > limit / 2 <==> 2 * used > limit);
}

} // verus!
