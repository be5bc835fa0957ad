//! Endpoint configurations and the loader that reads them from a JSON
//! document.
//!
//! The loader tolerates partial input with two distinct policies, both
//! deliberate:
//! - a `name` or `url` that is absent or not a string truncates the whole
//!   remaining list of entries; a `headers` or `form` value that is not a
//!   string truncates the remaining pairs of that one map;
//! - a `response` or `message` path element that is neither a string nor a
//!   non-negative integer is silently skipped.
//!
//! An entry whose `name` or `url` is a string but empty is dropped on its
//! own, and loading continues with the next entry.

use vstd::prelude::*;

use crate::jsonpath::PathStep;
use crate::jsonpath::StepView;
use crate::jsonpath::steps_view;
use crate::jsonval::JsonVal;
use crate::jsonval::get_field;
use crate::jsonval::spec_field;
use crate::rawjson::parse_json;
use crate::rawjson::parsed_json_of;
use crate::strutil::str_eq;

verus! {

/// One upload target: where to post, what static headers and form fields
/// to send, under which multipart field name the file goes, and where in
/// the endpoint's JSON response the success URL (`response`) and the error
/// message (`message`) live.
pub struct Config {
    pub name: String,
    pub url: String,
    pub headers: Vec<(String, String)>,
    pub form: Vec<(String, String)>,
    pub form_file: String,
    pub response: Vec<PathStep>,
    pub message: Vec<PathStep>,
}

/// The mathematical shape of a [`Config`].
#[verifier::ext_equal]
pub ghost struct ConfigView {
    pub name: Seq<char>,
    pub url: Seq<char>,
    pub headers: Seq<(Seq<char>, Seq<char>)>,
    pub form: Seq<(Seq<char>, Seq<char>)>,
    pub form_file: Seq<char>,
    pub response: Seq<StepView>,
    pub message: Seq<StepView>,
}

impl View for Config {
    type V = ConfigView;

    open spec fn view(&self) -> ConfigView {
        ConfigView {
            name: self.name@,
            url: self.url@,
            headers: self.headers@.map_values(|p: (String, String)| (p.0@, p.1@)),
            form: self.form@.map_values(|p: (String, String)| (p.0@, p.1@)),
            form_file: self.form_file@,
            response: steps_view(self.response@),
            message: steps_view(self.message@),
        }
    }
}

/// The views of a sequence of configurations.
pub open spec fn configs_view(configs: Seq<Config>) -> Seq<ConfigView> {
    configs.map_values(|c: Config| c@)
}

/// The entry list of an object value; empty for everything else.
pub open spec fn spec_obj_entries(v: Option<JsonVal>) -> Seq<(String, JsonVal)> {
    match v {
        Some(JsonVal::Obj(entries)) => entries@,
        _ => Seq::empty(),
    }
}

/// The element list of an array value; empty for everything else.
pub open spec fn spec_arr_items(v: Option<JsonVal>) -> Seq<JsonVal> {
    match v {
        Some(JsonVal::Arr(items)) => items@,
        _ => Seq::empty(),
    }
}

/// String-to-string pairs read off an object's entries, truncated at the
/// first entry whose value is not a string.
pub open spec fn spec_parse_str_map(entries: Seq<(String, JsonVal)>) -> Seq<(Seq<char>, Seq<char>)>
    decreases entries.len(),
{
    if entries.len() == 0 {
        Seq::empty()
    } else {
        match entries[0].1 {
            JsonVal::Str(s) => seq![(entries[0].0@, s@)] + spec_parse_str_map(entries.skip(1)),
            _ => Seq::empty(),
        }
    }
}

/// Path steps read off an array's elements: a string becomes an object-key
/// step, a non-negative integer an array-index step, and any other element
/// is skipped.
pub open spec fn spec_parse_path(items: Seq<JsonVal>) -> Seq<StepView>
    decreases items.len(),
{
    if items.len() == 0 {
        Seq::empty()
    } else {
        let head = match items[0] {
            JsonVal::Str(s) => seq![StepView::ObjectKey(s@)],
            JsonVal::Int(n) => seq![StepView::ArrayIndex(n as int)],
            _ => Seq::<StepView>::empty(),
        };
        head + spec_parse_path(items.skip(1))
    }
}

/// What one configuration entry contributes to the loaded list.
pub ghost enum EntrySpec {
    /// `name` or `url` absent or not a string: the rest of the list is cut off.
    Malformed,
    /// `name` or `url` empty: this entry alone is left out.
    Dropped,
    /// A well-formed entry.
    Parsed(ConfigView),
}

/// How one JSON entry of the configuration array is read.
pub open spec fn spec_parse_entry(v: JsonVal) -> EntrySpec {
    match (spec_field(v, "name"@), spec_field(v, "url"@)) {
        (Some(JsonVal::Str(name)), Some(JsonVal::Str(url))) => {
            if name@.len() == 0 || url@.len() == 0 {
                EntrySpec::Dropped
            } else {
                EntrySpec::Parsed(ConfigView {
                    name: name@,
                    url: url@,
                    headers: spec_parse_str_map(spec_obj_entries(spec_field(v, "headers"@))),
                    form: spec_parse_str_map(spec_obj_entries(spec_field(v, "form"@))),
                    form_file: match spec_field(v, "form_file"@) {
                        Some(JsonVal::Str(s)) => s@,
                        _ => Seq::empty(),
                    },
                    response: spec_parse_path(spec_arr_items(spec_field(v, "response"@))),
                    message: spec_parse_path(spec_arr_items(spec_field(v, "message"@))),
                })
            }
        },
        _ => EntrySpec::Malformed,
    }
}

/// The configurations read off the elements of the top-level array,
/// truncated at the first malformed entry.
pub open spec fn spec_parse_items(items: Seq<JsonVal>) -> Seq<ConfigView>
    decreases items.len(),
{
    if items.len() == 0 {
        Seq::empty()
    } else {
        match spec_parse_entry(items[0]) {
            EntrySpec::Malformed => Seq::empty(),
            EntrySpec::Dropped => spec_parse_items(items.skip(1)),
            EntrySpec::Parsed(cv) => seq![cv] + spec_parse_items(items.skip(1)),
        }
    }
}

/// The configurations a whole JSON document yields: its top-level array's
/// entries, read one by one. A document that is not an array yields none.
pub open spec fn spec_parse_config(v: JsonVal) -> Seq<ConfigView> {
    match v {
        JsonVal::Arr(items) => spec_parse_items(items@),
        _ => Seq::empty(),
    }
}

/// Read the string-valued pairs of an object's entries, truncating at the
/// first pair whose value is not a string.
fn parse_str_map(entries: &Vec<(String, JsonVal)>) -> (r: Vec<(String, String)>)
    ensures
        r@.map_values(|p: (String, String)| (p.0@, p.1@)) == spec_parse_str_map(entries@),
{
    let ghost total = spec_parse_str_map(entries@);
    let mut r: Vec<(String, String)> = Vec::new();
    let mut i: usize = 0;
    proof {
        assert(entries@.skip(0) =~= entries@);
        assert(r@.map_values(|p: (String, String)| (p.0@, p.1@)) =~= Seq::<(Seq<char>, Seq<char>)>::empty());
    }
    while i < entries.len()
        invariant
            i <= entries@.len(),
            total == spec_parse_str_map(entries@),
            total == r@.map_values(|p: (String, String)| (p.0@, p.1@))
                + spec_parse_str_map(entries@.skip(i as int)),
        decreases entries@.len() - i,
    {
        proof {
            assert(entries@.skip(i as int)[0] == entries@[i as int]);
            assert(entries@.skip(i as int).skip(1) =~= entries@.skip(i as int + 1));
        }
        match &entries[i].1 {
            JsonVal::Str(s) => {
                let ghost old_view = r@.map_values(|p: (String, String)| (p.0@, p.1@));
                r.push((entries[i].0.clone(), s.clone()));
                proof {
                    assert(r@.map_values(|p: (String, String)| (p.0@, p.1@))
                        =~= old_view + seq![(entries@[i as int].0@, s@)]);
                }
            },
            _ => {
                proof {
                    assert(spec_parse_str_map(entries@.skip(i as int)) =~= Seq::<(Seq<char>, Seq<char>)>::empty());
                    assert(total =~= r@.map_values(|p: (String, String)| (p.0@, p.1@)));
                }
                return r;
            },
        }
        i += 1;
    }
    proof {
        assert(entries@.skip(i as int).len() == 0);
        assert(total =~= r@.map_values(|p: (String, String)| (p.0@, p.1@)));
    }
    r
}

/// Read the path steps of an array's elements, skipping elements that are
/// neither strings nor non-negative integers.
fn parse_path(items: &Vec<JsonVal>) -> (r: Vec<PathStep>)
    ensures
        steps_view(r@) == spec_parse_path(items@),
{
    let ghost total = spec_parse_path(items@);
    let mut r: Vec<PathStep> = Vec::new();
    let mut i: usize = 0;
    proof {
        assert(items@.skip(0) =~= items@);
        assert(steps_view(r@) =~= Seq::<StepView>::empty());
    }
    while i < items.len()
        invariant
            i <= items@.len(),
            total == spec_parse_path(items@),
            total == steps_view(r@) + spec_parse_path(items@.skip(i as int)),
        decreases items@.len() - i,
    {
        proof {
            assert(items@.skip(i as int)[0] == items@[i as int]);
            assert(items@.skip(i as int).skip(1) =~= items@.skip(i as int + 1));
        }
        let ghost old_view = steps_view(r@);
        match &items[i] {
            JsonVal::Str(s) => {
                r.push(PathStep::ObjectKey(s.clone()));
                proof {
                    assert(steps_view(r@) =~= old_view + seq![StepView::ObjectKey(s@)]);
                }
            },
            JsonVal::Int(n) => {
                r.push(PathStep::ArrayIndex(*n));
                proof {
                    assert(steps_view(r@) =~= old_view + seq![StepView::ArrayIndex(*n as int)]);
                }
            },
            _ => {
                proof {
                    assert(steps_view(r@) + spec_parse_path(items@.skip(i as int))
                        =~= steps_view(r@) + spec_parse_path(items@.skip(i as int + 1)));
                }
            },
        }
        i += 1;
    }
    proof {
        assert(items@.skip(i as int).len() == 0);
        assert(total =~= steps_view(r@));
    }
    r
}

/// How one entry of the configuration array was read.
enum EntryResult {
    Malformed,
    Dropped,
    Parsed(Config),
}

/// Read one entry of the configuration array.
fn parse_entry(item: &JsonVal) -> (r: EntryResult)
    ensures
        match r {
            EntryResult::Malformed => spec_parse_entry(*item) == EntrySpec::Malformed,
            EntryResult::Dropped => spec_parse_entry(*item) == EntrySpec::Dropped,
            EntryResult::Parsed(c) => spec_parse_entry(*item) == EntrySpec::Parsed(c@),
        },
{
    let name: String = match get_field(item, "name") {
        Some(JsonVal::Str(s)) => s.clone(),
        _ => {
            return EntryResult::Malformed;
        },
    };
    let url: String = match get_field(item, "url") {
        Some(JsonVal::Str(s)) => s.clone(),
        _ => {
            return EntryResult::Malformed;
        },
    };
    if name.as_str().unicode_len() == 0 || url.as_str().unicode_len() == 0 {
        return EntryResult::Dropped;
    }
    let headers: Vec<(String, String)> = match get_field(item, "headers") {
        Some(JsonVal::Obj(entries)) => parse_str_map(entries),
        _ => Vec::new(),
    };
    let form: Vec<(String, String)> = match get_field(item, "form") {
        Some(JsonVal::Obj(entries)) => parse_str_map(entries),
        _ => Vec::new(),
    };
    let form_file: String = match get_field(item, "form_file") {
        Some(JsonVal::Str(s)) => s.clone(),
        _ => String::new(),
    };
    let response: Vec<PathStep> = match get_field(item, "response") {
        Some(JsonVal::Arr(items)) => parse_path(items),
        _ => Vec::new(),
    };
    let message: Vec<PathStep> = match get_field(item, "message") {
        Some(JsonVal::Arr(items)) => parse_path(items),
        _ => Vec::new(),
    };
    let c = Config { name, url, headers, form, form_file, response, message };
    proof {
        assert(c@ =~= spec_parse_entry(*item)->Parsed_0);
    }
    EntryResult::Parsed(c)
}

/// Turn a parsed JSON document into the list of endpoint configurations
/// it describes, with the truncate-and-skip policies described at the top
/// of this module.
pub fn parse_config(v: &JsonVal) -> (r: Vec<Config>)
    ensures
        configs_view(r@) == spec_parse_config(*v),
{
    let ghost total = spec_parse_config(*v);
    let mut r: Vec<Config> = Vec::new();
    proof {
        assert(configs_view(r@) =~= Seq::<ConfigView>::empty());
    }
    let items: &Vec<JsonVal> = match v {
        JsonVal::Arr(items) => items,
        _ => {
            proof {
                assert(spec_parse_config(*v) =~= Seq::<ConfigView>::empty());
            }
            return r;
        },
    };
    let mut i: usize = 0;
    proof {
        assert(items@.skip(0) =~= items@);
    }
    while i < items.len()
        invariant
            i <= items@.len(),
            total == spec_parse_config(*v),
            total == spec_parse_items(items@),
            total == configs_view(r@) + spec_parse_items(items@.skip(i as int)),
        decreases items@.len() - i,
    {
        proof {
            assert(items@.skip(i as int)[0] == items@[i as int]);
            assert(items@.skip(i as int).skip(1) =~= items@.skip(i as int + 1));
        }
        let ghost old_view = configs_view(r@);
        match parse_entry(&items[i]) {
            EntryResult::Malformed => {
                proof {
                    assert(spec_parse_items(items@.skip(i as int)) =~= Seq::<ConfigView>::empty());
                    assert(total =~= configs_view(r@));
                }
                return r;
            },
            EntryResult::Dropped => {},
            EntryResult::Parsed(c) => {
                let ghost cv = c@;
                r.push(c);
                proof {
                    assert(configs_view(r@) =~= old_view + seq![cv]);
                }
            },
        }
        i += 1;
    }
    proof {
        assert(items@.skip(i as int).len() == 0);
        assert(total =~= configs_view(r@));
    }
    r
}

/// Load endpoint configurations from the text of a configuration file:
/// `None` when the text is not a valid JSON document, otherwise the
/// configurations its top-level array describes.
pub fn load_configs(text: &str) -> (r: Option<Vec<Config>>)
    ensures
        match parsed_json_of(text@) {
            Some(v) => r matches Some(cfgs) && configs_view(cfgs@) == spec_parse_config(v),
            None => r is None,
        },
{
    match parse_json(text) {
        Some(v) => Some(parse_config(&v)),
        None => None,
    }
}

/// The last configuration in `servers` whose name is `name`, if any: a
/// later entry with the same name shadows an earlier one.
pub open spec fn spec_select(servers: Seq<Config>, name: Seq<char>) -> Option<Config>
    decreases servers.len(),
{
    if servers.len() == 0 {
        None
    } else if servers.last().name@ == name {
        Some(servers.last())
    } else {
        spec_select(servers.drop_last(), name)
    }
}

/// Select the configuration to use by name; the last match wins.
pub fn select_config<'a>(servers: &'a Vec<Config>, name: &str) -> (r: Option<&'a Config>)
    ensures
        match r {
            Some(c) => spec_select(servers@, name@) == Some(*c),
            None => spec_select(servers@, name@) is None,
        },
{
    let mut found: Option<&'a Config> = None;
    let mut i: usize = 0;
    proof {
        assert(servers@.take(0).len() == 0);
    }
    while i < servers.len()
        invariant
            i <= servers@.len(),
            match found {
                Some(c) => spec_select(servers@.take(i as int), name@) == Some(*c),
                None => spec_select(servers@.take(i as int), name@) is None,
            },
        decreases servers@.len() - i,
    {
        proof {
            assert(servers@.take(i as int + 1).drop_last() =~= servers@.take(i as int));
            assert(servers@.take(i as int + 1).last() == servers@[i as int]);
        }
        if str_eq(servers[i].name.as_str(), name) {
            found = Some(&servers[i]);
        }
        i += 1;
    }
    proof {
        assert(servers@.take(i as int) =~= servers@);
    }
    found
}

} // verus!
