use vstd::prelude::*;
use crate::models::EmailAddress;
use crate::send_grid_sdk::{
    apply_calls, fresh_builder, html_type, merged_content, payload_of, plain_type,
    unless_empty, BuilderCall, BuilderView,
};

verus! {

/// The plain-text bodies given in a sequence of calls, in call order.
pub open spec fn texts_of(calls: Seq<BuilderCall>) -> Seq<Seq<char>>
    decreases calls.len(),
{
    if calls.len() == 0 {
        Seq::empty()
    } else {
        match calls.last() {
            BuilderCall::Text(t) => texts_of(calls.drop_last()).push(t),
            _ => texts_of(calls.drop_last()),
        }
    }
}

/// The HTML bodies given in a sequence of calls, in call order.
pub open spec fn htmls_of(calls: Seq<BuilderCall>) -> Seq<Seq<char>>
    decreases calls.len(),
{
    if calls.len() == 0 {
        Seq::empty()
    } else {
        match calls.last() {
            BuilderCall::Html(h) => htmls_of(calls.drop_last()).push(h),
            _ => htmls_of(calls.drop_last()),
        }
    }
}

/// The addresses given to `set_cc` in a sequence of calls, in call order.
pub open spec fn cc_emails_of(calls: Seq<BuilderCall>) -> Seq<String>
    decreases calls.len(),
{
    if calls.len() == 0 {
        Seq::empty()
    } else {
        match calls.last() {
            BuilderCall::Cc(e) => cc_emails_of(calls.drop_last()).push(e),
            _ => cc_emails_of(calls.drop_last()),
        }
    }
}

/// The addresses given to `set_bcc` in a sequence of calls, in call order.
pub open spec fn bcc_emails_of(calls: Seq<BuilderCall>) -> Seq<String>
    decreases calls.len(),
{
    if calls.len() == 0 {
        Seq::empty()
    } else {
        match calls.last() {
            BuilderCall::Bcc(e) => bcc_emails_of(calls.drop_last()).push(e),
            _ => bcc_emails_of(calls.drop_last()),
        }
    }
}

/// An address with no display name, as `set_cc` and `set_bcc` make it.
pub open spec fn bare_address(email: String) -> EmailAddress {
    EmailAddress { email, name: None }
}

proof fn lemma_lists_after_calls(v: BuilderView, calls: Seq<BuilderCall>)
    ensures
        apply_calls(v, calls).text_content == v.text_content + texts_of(calls),
        apply_calls(v, calls).html_content == v.html_content + htmls_of(calls),
        apply_calls(v, calls).cc == v.cc + cc_emails_of(calls).map_values(|e: String| bare_address(e)),
        apply_calls(v, calls).bcc == v.bcc + bcc_emails_of(calls).map_values(|e: String| bare_address(e)),
    decreases calls.len(),
{
    if calls.len() == 0 {
        assert(v.text_content + texts_of(calls) =~= v.text_content);
        assert(v.html_content + htmls_of(calls) =~= v.html_content);
        assert(v.cc + cc_emails_of(calls).map_values(|e: String| bare_address(e)) =~= v.cc);
        assert(v.bcc + bcc_emails_of(calls).map_values(|e: String| bare_address(e)) =~= v.bcc);
    } else {
        let init = calls.drop_last();
        lemma_lists_after_calls(v, init);
        let w = apply_calls(v, init);
        match calls.last() {
            BuilderCall::Text(t) => {
                assert(v.text_content + texts_of(init).push(t) =~= (v.text_content + texts_of(init)).push(t));
            },
            BuilderCall::Html(h) => {
                assert(v.html_content + htmls_of(init).push(h) =~= (v.html_content + htmls_of(init)).push(h));
            },
            BuilderCall::Cc(e) => {
                assert(v.cc + cc_emails_of(init).push(e).map_values(|e: String| bare_address(e)) =~= (v.cc
                    + cc_emails_of(init).map_values(|e: String| bare_address(e))).push(bare_address(e)));
            },
            BuilderCall::Bcc(e) => {
                assert(v.bcc + bcc_emails_of(init).push(e).map_values(|e: String| bare_address(e)) =~= (v.bcc
                    + bcc_emails_of(init).map_values(|e: String| bare_address(e))).push(bare_address(e)));
            },
            _ => {},
        }
    }
}

/// However text and HTML bodies are interleaved, the request lists every
/// plain-text body first and then every HTML body, each kind in call order.
pub proof fn lemma_content_order(v: BuilderView, calls: Seq<BuilderCall>)
    ensures
        ({
            let texts = v.text_content + texts_of(calls);
            let htmls = v.html_content + htmls_of(calls);
            let m = merged_content(texts, htmls);
            &&& payload_of(apply_calls(v, calls)).content == unless_empty(m)
            &&& m.len() == texts.len() + htmls.len()
            &&& forall|i: int| 0 <= i < texts.len() ==> m[i] == (plain_type(), texts[i])
            &&& forall|j: int| 0 <= j < htmls.len() ==> m[texts.len() + j] == (html_type(), htmls[j])
        }),
{
    lemma_lists_after_calls(v, calls);
    let texts = v.text_content + texts_of(calls);
    let htmls = v.html_content + htmls_of(calls);
    let m = merged_content(texts, htmls);
    assert forall|j: int| 0 <= j < htmls.len() implies m[texts.len() + j] == (html_type(), htmls[j]) by {
        assert(m[texts.len() + j] == htmls.map_values(|h: Seq<char>| (html_type(), h))[j]);
    }
}

/// A fresh builder on which `set_cc` (or `set_bcc`) is never called sends no
/// `cc` (or `bcc`) list at all.
pub proof fn lemma_no_cc_without_set_cc(api_key: Seq<char>, calls: Seq<BuilderCall>)
    ensures
        (forall|i: int| 0 <= i < calls.len() ==> !(calls[i] is Cc)) ==> payload_of(
            apply_calls(fresh_builder(api_key), calls),
        ).personalizations[0].cc is None,
        (forall|i: int| 0 <= i < calls.len() ==> !(calls[i] is Bcc)) ==> payload_of(
            apply_calls(fresh_builder(api_key), calls),
        ).personalizations[0].bcc is None,
{
    lemma_lists_after_calls(fresh_builder(api_key), calls);
    if forall|i: int| 0 <= i < calls.len() ==> !(calls[i] is Cc) {
        lemma_no_cc_calls(calls);
    }
    if forall|i: int| 0 <= i < calls.len() ==> !(calls[i] is Bcc) {
        lemma_no_bcc_calls(calls);
    }
}

proof fn lemma_no_cc_calls(calls: Seq<BuilderCall>)
    requires
        forall|i: int| 0 <= i < calls.len() ==> !(calls[i] is Cc),
    ensures
        cc_emails_of(calls).len() == 0,
    decreases calls.len(),
{
    if calls.len() > 0 {
        assert(!(calls[calls.len() - 1] is Cc));
        lemma_no_cc_calls(calls.drop_last());
    }
}

proof fn lemma_no_bcc_calls(calls: Seq<BuilderCall>)
    requires
        forall|i: int| 0 <= i < calls.len() ==> !(calls[i] is Bcc),
    ensures
        bcc_emails_of(calls).len() == 0,
    decreases calls.len(),
{
    if calls.len() > 0 {
        assert(!(calls[calls.len() - 1] is Bcc));
        lemma_no_bcc_calls(calls.drop_last());
    }
}

/// On a fresh builder with at least one `set_cc` call, the `cc` list holds one
/// address per call, in call order, each without a display name.
pub proof fn lemma_cc_follows_calls(api_key: Seq<char>, calls: Seq<BuilderCall>)
    ensures
        cc_emails_of(calls).len() > 0 ==> payload_of(apply_calls(fresh_builder(api_key), calls)).personalizations[0].cc
            == Some(cc_emails_of(calls).map_values(|e: String| bare_address(e))),
        ({
            let cc = payload_of(apply_calls(fresh_builder(api_key), calls)).personalizations[0].cc;
            cc_emails_of(calls).len() > 0 ==> {
                &&& cc.unwrap().len() == cc_emails_of(calls).len()
                &&& forall|i: int| 0 <= i < cc_emails_of(calls).len() ==> cc.unwrap()[i] == bare_address(cc_emails_of(calls)[i])
            }
        }),
{
    let v = fresh_builder(api_key);
    lemma_lists_after_calls(v, calls);
    assert(v.cc + cc_emails_of(calls).map_values(|e: String| bare_address(e)) =~= cc_emails_of(calls).map_values(
        |e: String| bare_address(e),
    ));
}

proof fn lemma_calls_concat(v: BuilderView, a: Seq<BuilderCall>, b: Seq<BuilderCall>)
    ensures
        apply_calls(v, a + b) == apply_calls(apply_calls(v, a), b),
    decreases b.len(),
{
    if b.len() == 0 {
        assert(a + b =~= a);
    } else {
        assert((a + b).drop_last() =~= a + b.drop_last());
        assert((a + b).last() == b.last());
        lemma_calls_concat(v, a, b.drop_last());
    }
}

proof fn lemma_template_kept(v: BuilderView, calls: Seq<BuilderCall>)
    requires
        forall|i: int| 0 <= i < calls.len() ==> !(calls[i] is Template),
    ensures
        apply_calls(v, calls).template_id == v.template_id,
        apply_calls(v, calls).dynamic_template_data == v.dynamic_template_data,
    decreases calls.len(),
{
    if calls.len() > 0 {
        assert(!(calls[calls.len() - 1] is Template));
        lemma_template_kept(v, calls.drop_last());
    }
}

/// The last `set_template_id` call decides both the template id and the
/// template data that are sent, whatever came before it.
pub proof fn lemma_template_last_wins(
    v: BuilderView,
    before: Seq<BuilderCall>,
    template_id: String,
    data: serde_json::Value,
    after: Seq<BuilderCall>,
)
    requires
        forall|i: int| 0 <= i < after.len() ==> !(after[i] is Template),
    ensures
        ({
            let p = payload_of(apply_calls(v, before.push(BuilderCall::Template(template_id, data)) + after));
            &&& p.template_id == Some(template_id)
            &&& p.personalizations[0].dynamic_template_data == Some(data)
        }),
{
    let first = before.push(BuilderCall::Template(template_id, data));
    lemma_calls_concat(v, first, after);
    assert(first.drop_last() =~= before);
    lemma_template_kept(apply_calls(v, first), after);
}

} // verus!
