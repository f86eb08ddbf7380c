//! The request as a script sees it.

use vstd::prelude::*;
use crate::constants::MODULE_URI;
use crate::tasks::{
    parse_url,
    text_view,
    url_record,
    JSContext,
    JSTask,
    TaskError,
};
use crate::text::{chars_of, pair_views, push_str, same_text, string_of};
use crate::words::{contains_whitespace, has_space};

verus! {

/// One parameter of a request: its name, and its values in the order in
/// which they came.
#[derive(Clone, Debug)]
pub struct Parameter {
    pub name: String,
    pub values: Vec<String>,
}

/// A [`Parameter`] as a mathematical value.
pub struct ParameterView {
    pub name: Seq<char>,
    pub values: Seq<Seq<char>>,
}

impl View for Parameter {
    type V = ParameterView;

    open spec fn view(&self) -> ParameterView {
        ParameterView { name: self.name@, values: self.values.deep_view() }
    }
}

impl DeepView for Parameter {
    type V = ParameterView;

    open spec fn deep_view(&self) -> ParameterView {
        self@
    }
}

/// The request as a script sees it.
#[derive(Clone, Debug)]
pub struct HttpRequest {
    pub original_url: String,
    pub method: String,
    pub host: String,
    pub path: String,
    pub query: String,
    pub parameters: Vec<Parameter>,
    pub post_parameters: Vec<Parameter>,
    pub user: String,
}

/// The values that the pairs give for the name `name`, in order.
pub open spec fn values_for(pairs: Seq<(Seq<char>, Seq<char>)>, name: Seq<char>) -> Seq<Seq<char>>
    decreases pairs.len(),
{
    if pairs.len() == 0 {
        Seq::empty()
    } else if pairs.last().0 == name {
        values_for(pairs.drop_last(), name).push(pairs.last().1)
    } else {
        values_for(pairs.drop_last(), name)
    }
}

/// Whether a pair before position `i` has the name of the pair at `i`.
pub open spec fn named_before(pairs: Seq<(Seq<char>, Seq<char>)>, i: int) -> bool {
    exists|j: int| 0 <= j < i && (#[trigger] pairs[j]).0 == pairs[i].0
}

/// The parameters that the first `n` pairs name: each name once, in the
/// order in which the names first come, with all the values that the
/// pairs give for it.
pub open spec fn grouped(pairs: Seq<(Seq<char>, Seq<char>)>, n: int) -> Seq<ParameterView>
    decreases n,
{
    if n <= 0 {
        Seq::empty()
    } else if named_before(pairs, n - 1) {
        grouped(pairs, n - 1)
    } else {
        grouped(pairs, n - 1).push(
            ParameterView { name: pairs[n - 1].0, values: values_for(pairs, pairs[n - 1].0) },
        )
    }
}

/// The parameters that the pairs name.
pub open spec fn parameters_of(pairs: Seq<(Seq<char>, Seq<char>)>) -> Seq<ParameterView> {
    grouped(pairs, pairs.len() as int)
}

/// The values that the pairs give for `name`, in order.
fn collect_values(pairs: &Vec<(String, String)>, name: &str) -> (values: Vec<String>)
    ensures
        values.deep_view() == values_for(pair_views(pairs@), name@),
{
    let ghost all = pair_views(pairs@);
    let mut values: Vec<String> = Vec::new();
    let mut i: usize = 0;
    proof {
        assert(all.take(0) =~= Seq::<(Seq<char>, Seq<char>)>::empty());
        assert(values.deep_view() =~= Seq::<Seq<char>>::empty());
    }
    while i < pairs.len()
        invariant
            i <= pairs.len(),
            all == pair_views(pairs@),
            values.deep_view() == values_for(all.take(i as int), name@),
        decreases pairs.len() - i,
    {
        proof {
            assert(all.take(i + 1).drop_last() =~= all.take(i as int));
            assert(all.take(i + 1).last() == (pairs[i as int].0@, pairs[i as int].1@));
        }
        if same_text(pairs[i].0.as_str(), name) {
            let ghost before = values.deep_view();
            let v = pairs[i].1.clone();
            values.push(v);
            assert(values.deep_view() =~= before.push(v@));
        }
        i += 1;
    }
    proof {
        assert(all.take(pairs.len() as int) =~= all);
    }
    values
}

/// Groups pairs by name: each name once, in the order in which the names
/// first come, with all its values in the order in which they came.
pub fn group_pairs(pairs: &Vec<(String, String)>) -> (parameters: Vec<Parameter>)
    ensures
        parameters.deep_view() == parameters_of(pair_views(pairs@)),
{
    let ghost all = pair_views(pairs@);
    let mut parameters: Vec<Parameter> = Vec::new();
    let mut i: usize = 0;
    proof {
        assert(parameters.deep_view() =~= Seq::<ParameterView>::empty());
    }
    while i < pairs.len()
        invariant
            i <= pairs.len(),
            all == pair_views(pairs@),
            parameters.deep_view() == grouped(all, i as int),
        decreases pairs.len() - i,
    {
        let mut seen = false;
        let mut j: usize = 0;
        while j < i
            invariant
                j <= i < pairs.len(),
                all == pair_views(pairs@),
                seen == exists|k: int| 0 <= k < j && (#[trigger] all[k]).0 == all[i as int].0,
            decreases i - j,
        {
            assert(all[j as int].0 == pairs[j as int].0@);
            assert(all[i as int].0 == pairs[i as int].0@);
            if same_text(pairs[j].0.as_str(), pairs[i].0.as_str()) {
                seen = true;
            }
            j += 1;
        }
        if !seen {
            let ghost before = parameters.deep_view();
            let values = collect_values(pairs, pairs[i].0.as_str());
            let p = Parameter { name: pairs[i].0.clone(), values };
            assert(all[i as int].0 == pairs[i as int].0@);
            parameters.push(p);
            assert(parameters.deep_view() =~= before.push(p@));
        }
        i += 1;
    }
    parameters
}

/// The address that stands for a body when the body is read as a query.
pub open spec fn body_address(body: Seq<char>) -> Seq<char> {
    MODULE_URI@ + "?"@ + body
}

/// The pairs of a body that is read as a form: those of the body taken as
/// the query of an address, where the body holds no white space and reads
/// as one; none else.
pub open spec fn form_pairs(body: Seq<char>) -> Seq<(Seq<char>, Seq<char>)> {
    if has_space(body) {
        Seq::empty()
    } else {
        match url_record(body_address(body)) {
            Some(url) => url.pairs,
            None => Seq::empty(),
        }
    }
}

/// The pairs of a body that is read as a form.
pub fn post_pairs(body: &str) -> (pairs: Vec<(String, String)>)
    ensures
        pair_views(pairs@) == form_pairs(body@),
{
    let cs = chars_of(body);
    if contains_whitespace(&cs) {
        let pairs: Vec<(String, String)> = Vec::new();
        assert(pair_views(pairs@) =~= Seq::<(Seq<char>, Seq<char>)>::empty());
        return pairs;
    }
    let mut buf: Vec<char> = Vec::new();
    push_str(&mut buf, MODULE_URI);
    push_str(&mut buf, "?");
    push_str(&mut buf, body);
    let address = string_of(&buf);
    match parse_url(address.as_str()) {
        Some(url) => url.pairs,
        None => {
            let pairs: Vec<(String, String)> = Vec::new();
            assert(pair_views(pairs@) =~= Seq::<(Seq<char>, Seq<char>)>::empty());
            pairs
        },
    }
}

/// The text, or the empty text where there is none.
pub open spec fn text_or_empty(s: Option<Seq<char>>) -> Seq<char> {
    match s {
        Some(s) => s,
        None => Seq::empty(),
    }
}

fn or_empty(s: &Option<String>) -> (out: String)
    ensures
        out@ == text_or_empty(text_view(*s)),
{
    match s {
        Some(s) => s.clone(),
        None => String::new(),
    }
}

impl JSContext {
    /// The current request as the script sees it: its address and the
    /// parts of the address, its method, the parameters of its query and
    /// of its body, and the user who asks.
    pub fn get_request(&self) -> (r: Result<HttpRequest, TaskError>)
        ensures
            match self.task {
                Some(JSTask::Servlet(servlet)) => {
                    &&& r matches Ok(request)
                    &&& request.original_url@ == servlet.url@.text
                    &&& request.method@ == servlet.method@
                    &&& request.host@ == text_or_empty(servlet.url@.host)
                    &&& request.path@ == servlet.url@.path
                    &&& request.query@ == text_or_empty(servlet.url@.query)
                    &&& request.parameters.deep_view() == parameters_of(servlet.url@.pairs)
                    &&& request.post_parameters.deep_view() == parameters_of(
                        form_pairs(servlet.body@),
                    )
                    &&& request.user@ == servlet.user@
                },
                Some(JSTask::Message(_)) => r matches Err(e) && e == TaskError::NotARequest,
                None => r matches Err(e) && e == TaskError::NoCurrentTask,
            },
    {
        match &self.task {
            Some(JSTask::Servlet(servlet)) => {
                let parameters = group_pairs(&servlet.url.pairs);
                let posted = post_pairs(servlet.body.as_str());
                let post_parameters = group_pairs(&posted);
                Ok(
                    HttpRequest {
                        original_url: servlet.url.text.clone(),
                        method: servlet.method.clone(),
                        host: or_empty(&servlet.url.host),
                        path: servlet.url.path.clone(),
                        query: or_empty(&servlet.url.query),
                        parameters,
                        post_parameters,
                        user: servlet.user.clone(),
                    },
                )
            },
            Some(JSTask::Message(_)) => Err(TaskError::NotARequest),
            None => Err(TaskError::NoCurrentTask),
        }
    }
}

} // verus!
