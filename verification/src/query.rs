//! The filter builder for tables: filters are kept in the order in which they
//! were added and written into the address in that order.

use vstd::prelude::*;
use vstd::string::*;
use crate::client::{
    empty_object, request_of, session_token_of, ClientView, HttpRequest, Method, Payload, PayloadView,
    Response, SupabaseClient,
};
use crate::json::{
    array_texts, is_array, item_texts, json_items, json_parsed, json_text, parse_value, value_text,
};
use crate::text::{join, join_push, join_text, replace_all, replace_char, replaced_is_gone};

verus! {

/// A query against one table. Each entry of `params` is a rule, a column and
/// a value, all as text.
#[derive(Debug)]
pub struct TableSchema {
    pub client: SupabaseClient,
    pub name: String,
    pub insert: Option<serde_json::Value>,
    pub update: Option<serde_json::Value>,
    pub delete: bool,
    pub params: Vec<(String, String, String)>,
}

pub struct TableView {
    pub client: ClientView,
    pub name: Seq<char>,
    pub insert: Option<serde_json::Value>,
    pub update: Option<serde_json::Value>,
    pub delete: bool,
    pub params: Seq<(Seq<char>, Seq<char>, Seq<char>)>,
}

impl View for TableSchema {
    type V = TableView;

    open spec fn view(&self) -> TableView {
        TableView {
            client: self.client@,
            name: self.name@,
            insert: self.insert,
            update: self.update,
            delete: self.delete,
            params: self.params.deep_view(),
        }
    }
}

/// The filters that take a JSON array.
#[derive(Clone, Copy, Debug, PartialEq, Eq, Structural)]
pub enum ArrayRule {
    In,
    Contains,
    ContainedBy,
    Or,
}

/// The query with one more entry at the end.
pub open spec fn with_param(
    t: TableView,
    rule: Seq<char>,
    column: Seq<char>,
    value: Seq<char>,
) -> TableView {
    TableView { params: t.params.push((rule, column, value)), ..t }
}

/// The rule under which an array filter is entered.
pub open spec fn rule_name(rule: ArrayRule) -> Seq<char> {
    match rule {
        ArrayRule::In => "in"@,
        ArrayRule::Contains => "cs"@,
        ArrayRule::ContainedBy => "cd"@,
        ArrayRule::Or => "or"@,
    }
}

/// The column of an array filter: a disjunction names none.
pub open spec fn rule_column(rule: ArrayRule, column: Seq<char>) -> Seq<char> {
    match rule {
        ArrayRule::Or => Seq::empty(),
        _ => column,
    }
}

/// The texts with commas between them, inside the brackets of the rule:
/// round ones for a list of alternatives, curly ones for an array.
pub open spec fn bracketed(rule: ArrayRule, texts: Seq<Seq<char>>) -> Seq<char> {
    match rule {
        ArrayRule::In | ArrayRule::Or => "("@ + join(texts, ","@) + ")"@,
        ArrayRule::Contains | ArrayRule::ContainedBy => "{"@ + join(texts, ","@) + "}"@,
    }
}

/// The query with the entry of an array filter at the end.
pub open spec fn with_array(
    t: TableView,
    rule: ArrayRule,
    column: Seq<char>,
    items: Seq<serde_json::Value>,
) -> TableView {
    with_param(t, rule_name(rule), rule_column(rule, column), bracketed(rule, item_texts(items)))
}

/// A value as it stands in an address: without its double quotes.
pub open spec fn unquoted(value: Seq<char>) -> Seq<char> {
    replace_char(value, '"', Seq::empty())
}

/// One entry as it stands in the address.
pub open spec fn param_text(p: (Seq<char>, Seq<char>, Seq<char>)) -> Seq<char> {
    if p.0 == "select"@ {
        p.0 + "="@ + p.1
    } else if p.0 == "or"@ {
        p.0 + "="@ + unquoted(p.2)
    } else {
        p.1 + "="@ + p.0 + "."@ + unquoted(p.2)
    }
}

/// The entries as they stand in the address, in their order.
pub open spec fn param_texts(params: Seq<(Seq<char>, Seq<char>, Seq<char>)>) -> Seq<Seq<char>> {
    params.map_values(|p: (Seq<char>, Seq<char>, Seq<char>)| param_text(p))
}

/// The path of a query: the table, then the entries behind `?`, with `&`
/// between them.
pub open spec fn query_path(name: Seq<char>, params: Seq<(Seq<char>, Seq<char>, Seq<char>)>) -> Seq<
    char,
> {
    if params.len() == 0 {
        "rest/v1/"@ + name
    } else {
        "rest/v1/"@ + name + "?"@ + join(param_texts(params), "&"@)
    }
}

/// The verb of a query: an insert goes before a delete, a delete before an
/// update, and a query with none of them reads.
pub open spec fn query_method(t: TableView) -> Method {
    if t.insert is Some {
        Method::POST
    } else if t.delete {
        Method::DELETE
    } else if t.update is Some {
        Method::PATCH
    } else {
        Method::GET
    }
}

/// The body of a query: the rows of the insert or the update that decides the
/// verb, and the empty object otherwise.
pub open spec fn query_body(t: TableView) -> PayloadView {
    if t.insert is Some {
        PayloadView::Value(t.insert->0)
    } else if !t.delete && t.update is Some {
        PayloadView::Value(t.update->0)
    } else {
        PayloadView::Object(Seq::empty())
    }
}

/// The text that is decoded as a query's rows.
pub open spec fn rows_text(text: Seq<char>) -> Seq<char> {
    if text.len() == 0 {
        "{}"@
    } else {
        text
    }
}

/// Adding an entry to a query appends it to the path and changes nothing
/// before it: behind `?` where it is the first, behind `&` otherwise.
pub proof fn path_grows(
    name: Seq<char>,
    params: Seq<(Seq<char>, Seq<char>, Seq<char>)>,
    p: (Seq<char>, Seq<char>, Seq<char>),
)
    ensures
        query_path(name, params.push(p)) == query_path(name, params) + (if params.len() == 0 {
            "?"@
        } else {
            "&"@
        }) + param_text(p),
{
    assert(param_texts(params.push(p)) =~= param_texts(params).push(param_text(p)));
    join_push(param_texts(params), "&"@, param_text(p));
    if params.len() > 0 {
        assert(query_path(name, params.push(p)) =~= query_path(name, params) + "&"@ + param_text(
            p,
        ));
    }
}

/// A filter extends the path of the query it is added to by its own text,
/// and leaves what stood there as it was.
pub proof fn filter_extends_path(
    t: TableView,
    rule: Seq<char>,
    column: Seq<char>,
    value: Seq<char>,
)
    ensures
        query_path(with_param(t, rule, column, value).name, with_param(t, rule, column, value).params)
            == query_path(t.name, t.params) + (if t.params.len() == 0 {
            "?"@
        } else {
            "&"@
        }) + param_text((rule, column, value)),
{
    path_grows(t.name, t.params, (rule, column, value));
}

/// A filter changes neither the verb nor the body of the query it is added
/// to.
pub proof fn filter_keeps_verb_and_body(
    t: TableView,
    rule: Seq<char>,
    column: Seq<char>,
    value: Seq<char>,
)
    ensures
        query_method(with_param(t, rule, column, value)) == query_method(t),
        query_body(with_param(t, rule, column, value)) == query_body(t),
{
}

/// No value of a filter keeps a double quote in the path.
pub proof fn unquoted_has_no_quote(value: Seq<char>)
    ensures
        !unquoted(value).contains('"'),
{
    replaced_is_gone(value, '"', Seq::empty());
}

fn copy_value(v: &Option<serde_json::Value>) -> (r: Option<serde_json::Value>)
    ensures
        r == *v,
{
    match v {
        Some(x) => Some(x.clone()),
        None => None,
    }
}

fn copy_params(params: &Vec<(String, String, String)>) -> (r: Vec<(String, String, String)>)
    ensures
        r.deep_view() == params.deep_view(),
{
    let mut r: Vec<(String, String, String)> = Vec::new();
    let mut i: usize = 0;
    while i < params.len()
        invariant
            i <= params.len(),
            r.len() == i,
            forall|j: int| 0 <= j < i ==> #[trigger] r[j] == params[j],
        decreases params.len() - i,
    {
        let p = &params[i];
        r.push((p.0.clone(), p.1.clone(), p.2.clone()));
        i = i + 1;
    }
    assert(r.deep_view() =~= params.deep_view());
    r
}

fn same_text(a: &String, b: &str) -> (r: bool)
    ensures
        r == (a@ == b@),
{
    let other = String::from_str(b);
    *a == other
}

impl Clone for TableSchema {
    fn clone(&self) -> (r: Self)
        ensures
            r@ == self@,
    {
        TableSchema {
            client: self.client.clone(),
            name: self.name.clone(),
            insert: copy_value(&self.insert),
            update: copy_value(&self.update),
            delete: self.delete,
            params: copy_params(&self.params),
        }
    }
}

impl SupabaseClient {
    /// A query against the table `name`, with no filter and nothing to write.
    pub fn from(&self, name: &str) -> (r: TableSchema)
        ensures
            r@ == (TableView {
                client: self@,
                name: name@,
                insert: None,
                update: None,
                delete: false,
                params: Seq::empty(),
            }),
    {
        let r = TableSchema {
            client: self.clone(),
            name: String::from_str(name),
            params: Vec::new(),
            insert: None,
            update: None,
            delete: false,
        };
        assert(r.params.deep_view() =~= Seq::empty());
        r
    }
}

impl TableSchema {
    /// Adds an entry as it is given: the rule, the column and the value's
    /// text. The result is the query as it then is.
    pub fn push_param(&mut self, rule: String, column: String, value: String) -> (r: TableSchema)
        ensures
            final(self)@ == with_param(old(self)@, rule@, column@, value@),
            r@ == final(self)@,
    {
        self.params.push((rule, column, value));
        assert(self.params.deep_view() =~= old(self).params.deep_view().push(
            (rule@, column@, value@),
        ));
        self.clone()
    }

    /// Adds an array filter whose items are given by their texts.
    pub fn push_array(&mut self, rule: ArrayRule, column: &str, texts: &Vec<String>) -> (r:
        TableSchema)
        ensures
            final(self)@ == with_param(
                old(self)@,
                rule_name(rule),
                rule_column(rule, column@),
                bracketed(rule, texts.deep_view()),
            ),
            r@ == final(self)@,
    {
        let (name, open, close) = match rule {
            ArrayRule::In => ("in", "(", ")"),
            ArrayRule::Contains => ("cs", "{", "}"),
            ArrayRule::ContainedBy => ("cd", "{", "}"),
            ArrayRule::Or => ("or", "(", ")"),
        };
        let column = match rule {
            ArrayRule::Or => String::new(),
            _ => String::from_str(column),
        };
        let list = join_text(texts, ",");
        let mut value = String::from_str(open);
        value.append(list.as_str());
        value.append(close);
        self.push_param(String::from_str(name), column, value)
    }

    /// Adds an array filter where `value` is an array. Any other value leaves
    /// the query as it was and gives `None`.
    pub fn filter_by_array(&mut self, rule: ArrayRule, column: &str, value: serde_json::Value) -> (r:
        Option<TableSchema>)
        ensures
            match json_items(value) {
                Some(items) => final(self)@ == with_array(old(self)@, rule, column@, items) && r
                    is Some && r->0@ == final(self)@,
                None => final(self)@ == old(self)@ && r is None,
            },
    {
        if is_array(&value) {
            Some(
                match rule {
                    ArrayRule::In => self.in_a(column, value),
                    ArrayRule::Contains => self.contains(column, value),
                    ArrayRule::ContainedBy => self.contained_by(column, value),
                    ArrayRule::Or => self.or(value),
                },
            )
        } else {
            None
        }
    }

    fn array_entry(&mut self, rule: ArrayRule, column: &str, value: &serde_json::Value) -> (r:
        TableSchema)
        requires
            json_items(*value) is Some,
        ensures
            final(self)@ == with_array(old(self)@, rule, column@, json_items(*value)->0),
            r@ == final(self)@,
    {
        let texts = array_texts(value).unwrap();
        self.push_array(rule, column, &texts)
    }

    /// Names the columns to return.
    pub fn select(&mut self, columns: &str) -> (r: TableSchema)
        ensures
            final(self)@ == with_param(old(self)@, "select"@, columns@, Seq::empty()),
            r@ == final(self)@,
    {
        self.push_param(String::from_str("select"), String::from_str(columns), String::new())
    }

    /// Keeps the rows whose `column` equals `value`.
    pub fn eq(&mut self, column: &str, value: serde_json::Value) -> (r: TableSchema)
        ensures
            final(self)@ == with_param(old(self)@, "eq"@, column@, json_text(value)),
            r@ == final(self)@,
    {
        self.push_param(String::from_str("eq"), String::from_str(column), value_text(&value))
    }

    /// Keeps the rows whose `column` differs from `value`.
    pub fn neq(&mut self, column: &str, value: serde_json::Value) -> (r: TableSchema)
        ensures
            final(self)@ == with_param(old(self)@, "neq"@, column@, json_text(value)),
            r@ == final(self)@,
    {
        self.push_param(String::from_str("neq"), String::from_str(column), value_text(&value))
    }

    /// Keeps the rows whose `column` is greater than `value`.
    pub fn gt(&mut self, column: &str, value: serde_json::Value) -> (r: TableSchema)
        ensures
            final(self)@ == with_param(old(self)@, "gt"@, column@, json_text(value)),
            r@ == final(self)@,
    {
        self.push_param(String::from_str("gt"), String::from_str(column), value_text(&value))
    }

    /// Keeps the rows whose `column` is `value` or greater.
    pub fn gte(&mut self, column: &str, value: serde_json::Value) -> (r: TableSchema)
        ensures
            final(self)@ == with_param(old(self)@, "gte"@, column@, json_text(value)),
            r@ == final(self)@,
    {
        self.push_param(String::from_str("gte"), String::from_str(column), value_text(&value))
    }

    /// Keeps the rows whose `column` is less than `value`.
    pub fn lt(&mut self, column: &str, value: serde_json::Value) -> (r: TableSchema)
        ensures
            final(self)@ == with_param(old(self)@, "lt"@, column@, json_text(value)),
            r@ == final(self)@,
    {
        self.push_param(String::from_str("lt"), String::from_str(column), value_text(&value))
    }

    /// Keeps the rows whose `column` is `value` or less.
    pub fn lte(&mut self, column: &str, value: serde_json::Value) -> (r: TableSchema)
        ensures
            final(self)@ == with_param(old(self)@, "lte"@, column@, json_text(value)),
            r@ == final(self)@,
    {
        self.push_param(String::from_str("lte"), String::from_str(column), value_text(&value))
    }

    /// Keeps the rows whose `column` matches the pattern, in which `%` stands
    /// for any run of characters. It is sent as `*`.
    pub fn like(&mut self, column: &str, value: String) -> (r: TableSchema)
        ensures
            final(self)@ == with_param(
                old(self)@,
                "like"@,
                column@,
                replace_char(value@, '%', "*"@),
            ),
            r@ == final(self)@,
    {
        let pattern = replace_all(value.as_str(), '%', "*");
        self.push_param(String::from_str("like"), String::from_str(column), pattern)
    }

    /// As `like`, without regard to case.
    pub fn ilike(&mut self, column: &str, value: String) -> (r: TableSchema)
        ensures
            final(self)@ == with_param(
                old(self)@,
                "ilike"@,
                column@,
                replace_char(value@, '%', "*"@),
            ),
            r@ == final(self)@,
    {
        let pattern = replace_all(value.as_str(), '%', "*");
        self.push_param(String::from_str("ilike"), String::from_str(column), pattern)
    }

    /// Keeps the rows whose `column` is exactly `value`: null, true or false.
    pub fn is(&mut self, column: &str, value: serde_json::Value) -> (r: TableSchema)
        ensures
            final(self)@ == with_param(old(self)@, "is"@, column@, json_text(value)),
            r@ == final(self)@,
    {
        self.push_param(String::from_str("is"), String::from_str(column), value_text(&value))
    }

    /// Keeps the rows whose `column` is one of the items of `value`.
    pub fn in_a(&mut self, column: &str, value: serde_json::Value) -> (r: TableSchema)
        requires
            json_items(value) is Some,
        ensures
            final(self)@ == with_array(old(self)@, ArrayRule::In, column@, json_items(value)->0),
            r@ == final(self)@,
    {
        self.array_entry(ArrayRule::In, column, &value)
    }

    /// Keeps the rows whose `column` holds every item of `value`.
    pub fn contains(&mut self, column: &str, value: serde_json::Value) -> (r: TableSchema)
        requires
            json_items(value) is Some,
        ensures
            final(self)@ == with_array(
                old(self)@,
                ArrayRule::Contains,
                column@,
                json_items(value)->0,
            ),
            r@ == final(self)@,
    {
        self.array_entry(ArrayRule::Contains, column, &value)
    }

    /// Keeps the rows whose `column` holds only items of `value`.
    pub fn contained_by(&mut self, column: &str, value: serde_json::Value) -> (r: TableSchema)
        requires
            json_items(value) is Some,
        ensures
            final(self)@ == with_array(
                old(self)@,
                ArrayRule::ContainedBy,
                column@,
                json_items(value)->0,
            ),
            r@ == final(self)@,
    {
        self.array_entry(ArrayRule::ContainedBy, column, &value)
    }

    /// Keeps the rows that do not meet `rule` for `column` and `value`.
    pub fn not(&mut self, column: &str, rule: &str, value: serde_json::Value) -> (r: TableSchema)
        ensures
            final(self)@ == with_param(old(self)@, "not."@ + rule@, column@, json_text(value)),
            r@ == final(self)@,
    {
        let mut negated = String::from_str("not.");
        negated.append(rule);
        self.push_param(negated, String::from_str(column), value_text(&value))
    }

    /// Keeps the rows that meet at least one of the conditions, each an item
    /// of `value`.
    pub fn or(&mut self, value: serde_json::Value) -> (r: TableSchema)
        requires
            json_items(value) is Some,
        ensures
            final(self)@ == with_array(
                old(self)@,
                ArrayRule::Or,
                Seq::empty(),
                json_items(value)->0,
            ),
            r@ == final(self)@,
    {
        self.array_entry(ArrayRule::Or, "", &value)
    }

    /// Makes the query an insert of `data`.
    pub fn insert(&mut self, data: serde_json::Value) -> (r: TableSchema)
        ensures
            final(self)@ == (TableView { insert: Some(data), ..old(self)@ }),
            r@ == final(self)@,
    {
        self.insert = Some(data);
        self.clone()
    }

    /// Makes the query a delete.
    pub fn delete(&mut self) -> (r: TableSchema)
        ensures
            final(self)@ == (TableView { delete: true, ..old(self)@ }),
            r@ == final(self)@,
    {
        self.delete = true;
        self.clone()
    }

    /// Makes the query an update to `data`.
    pub fn update(&mut self, data: serde_json::Value) -> (r: TableSchema)
        ensures
            final(self)@ == (TableView { update: Some(data), ..old(self)@ }),
            r@ == final(self)@,
    {
        self.update = Some(data);
        self.clone()
    }

    /// The path of the query: the table and its entries.
    pub fn path(&self) -> (r: String)
        ensures
            r@ == query_path(self@.name, self@.params),
    {
        let mut texts: Vec<String> = Vec::new();
        let mut i: usize = 0;
        while i < self.params.len()
            invariant
                i <= self.params.len(),
                texts.len() == i,
                forall|j: int|
                    0 <= j < i ==> (#[trigger] texts[j])@ == param_text(self.params.deep_view()[j]),
            decreases self.params.len() - i,
        {
            let p = &self.params[i];
            assert(self.params.deep_view()[i as int] == (p.0@, p.1@, p.2@));
            let mut t = String::new();
            if same_text(&p.0, "select") {
                t.append(p.0.as_str());
                t.append("=");
                t.append(p.1.as_str());
            } else if same_text(&p.0, "or") {
                let bare = replace_all(p.2.as_str(), '"', "");
                t.append(p.0.as_str());
                t.append("=");
                t.append(bare.as_str());
            } else {
                let bare = replace_all(p.2.as_str(), '"', "");
                t.append(p.1.as_str());
                t.append("=");
                t.append(p.0.as_str());
                t.append(".");
                t.append(bare.as_str());
            }
            proof {
                reveal_strlit("");
                assert(""@ =~= Seq::<char>::empty());
                assert(t@ =~= param_text((p.0@, p.1@, p.2@)));
            }
            texts.push(t);
            i = i + 1;
        }
        assert(texts.deep_view() =~= param_texts(self.params.deep_view()));
        let mut r = String::from_str("rest/v1/");
        r.append(self.name.as_str());
        if self.params.len() > 0 {
            let joined = join_text(&texts, "&");
            r.append("?");
            r.append(joined.as_str());
        }
        r
    }

    /// The call that runs the query, with the session's token.
    pub fn execute(&self) -> (r: HttpRequest)
        ensures
            r@ == request_of(
                self@.client,
                query_method(self@),
                query_path(self@.name, self@.params),
                query_body(self@),
                Some(session_token_of(self@.client)),
                None,
            ),
    {
        let path = self.path();
        let token = self.client.session_token();
        let (method, body) = if self.insert.is_some() {
            (Method::POST, Payload::Value(self.insert.as_ref().unwrap().clone()))
        } else if self.delete {
            (Method::DELETE, empty_object())
        } else if self.update.is_some() {
            (Method::PATCH, Payload::Value(self.update.as_ref().unwrap().clone()))
        } else {
            (Method::GET, empty_object())
        };
        self.client.request(method, path.as_str(), body, Some(token.as_str()), None)
    }
}

/// The text to decode as the rows of a reply: the reply's text, or the empty
/// object where the reply is empty.
pub fn reply_rows(text: String) -> (r: String)
    ensures
        r@ == rows_text(text@),
{
    if text.as_str().is_empty() {
        String::from_str("{}")
    } else {
        text
    }
}

/// The answer to a query: the status that came and the rows that the reply's
/// text stands for, an empty reply standing for the empty object. There is no
/// answer where the text cannot be read as JSON.
pub fn rows(code: u16, text: String) -> (r: Option<Response<serde_json::Value>>)
    ensures
        match r {
            Some(res) => res.code == code && res.data is Some && json_parsed(rows_text(text@))
                == res.data,
            None => json_parsed(rows_text(text@)) is None,
        },
{
    let text = reply_rows(text);
    match parse_value(text.as_str()) {
        Some(data) => Some(Response { code, data: Some(data) }),
        None => None,
    }
}

} // verus!
