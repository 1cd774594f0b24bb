//! The actions and resources that a user names, and what AWS's public Service
//! Authorization Reference says of them. Fetching the reference is left to the
//! user of the library.
use vstd::prelude::*;

use crate::diagnosis::outcome;
use crate::model::views;
use crate::outside::{escape_pattern, has_match, regex_escaped, regex_matches};
use crate::sorting::{is_ordering_of, lemma_ordered, ordered, sorted_unique};
use crate::text::{
    all_name_chars, ascii_lower, begins_with, chars_of, equal_ignoring_case, find_from, find_part,
    is_ascii_alphanumeric, is_ascii_digit, is_ascii_lower, is_control_char, join, joined,
    law_lower_case_changes_capitals_alone, law_text_without_it_stays_whole, lemma_find_from,
    lemma_index_of, lemma_split_first_of, lemma_texts_push, lower_ascii, occurs_at, occurs_in,
    opt_str, part_of, same_ignoring_case, same_text, split_first, split_once, starts_with, texts,
};
use vstd::utf8::encode_utf8;

verus! {

/// Where the list of services stands.
pub const SERVICE_INDEX_URL: &'static str =
    "https://servicereference.us-east-1.amazonaws.com/v1/service-list.json";

/// What the address of every service's part starts with.
pub const SERVICE_REFERENCE_ORIGIN: &'static str =
    "https://servicereference.us-east-1.amazonaws.com/";

/// How many bytes of a part are read.
pub const SERVICE_REFERENCE_LIMIT: u64 = 2_097_152;

/// How many resources can be simulated in one command.
pub const RESOURCE_COUNT_LIMIT: usize = 25;

/// How many bytes a resource may have.
pub const RESOURCE_LENGTH_LIMIT: usize = 2048;

/// The text can name a service: lower case letters, digits and hyphens.
pub open spec fn is_service_name(text: Seq<char>) -> bool {
    text.len() > 0 && forall|i: int|
        0 <= i < text.len() ==> is_ascii_lower(#[trigger] text[i]) || is_ascii_digit(text[i])
            || text[i] == '-'
}

/// The text can name an action of a service: letters, digits and hyphens.
pub open spec fn is_action_name(text: Seq<char>) -> bool {
    text.len() > 0 && forall|i: int|
        0 <= i < text.len() ==> is_ascii_alphanumeric(#[trigger] text[i]) || text[i] == '-'
}

/// The service that a user named, in lower case.
pub open spec fn normalized_service(service: Seq<char>) -> Result<Seq<char>, Seq<char>> {
    if is_service_name(ascii_lower(service)) {
        Ok(ascii_lower(service))
    } else {
        Err("Service must be an IAM service prefix such as s3, ec2, or secretsmanager."@)
    }
}

/// The action that a user named, with its service in front of it. An action
/// without one belongs to the expected service; one with another is refused.
pub open spec fn normalized_action(action: Seq<char>, expected: Option<Seq<char>>) -> Result<
    Seq<char>,
    Seq<char>,
> {
    match split_first(action, ':') {
        Some((prefix, name)) => match normalized_service(prefix) {
            Err(error) => Err(error),
            Ok(service) => if !is_action_name(name) {
                Err("Invalid IAM action: "@ + action)
            } else if expected is Some && expected.unwrap() != service {
                Err(
                    "Action "@ + action + " does not belong to requested service "@
                        + expected.unwrap() + "."@,
                )
            } else {
                Ok(service + ":"@ + name)
            },
        },
        None => match expected {
            None => Err(
                "Action must include its service prefix, for example s3:"@ + action + "."@,
            ),
            Some(service) => if !is_action_name(action) {
                Err("Invalid IAM action: "@ + action)
            } else {
                Ok(service + ":"@ + action)
            },
        },
    }
}

/// A resource that can be simulated.
pub open spec fn is_resource(resource: Seq<char>) -> bool {
    &&& resource.len() > 0
    &&& encode_utf8(resource).len() <= RESOURCE_LENGTH_LIMIT
    &&& forall|i: int| 0 <= i < resource.len() ==> !is_control_char(#[trigger] resource[i])
}

pub open spec fn all_resources(list: Seq<Seq<char>>) -> bool {
    forall|i: int| 0 <= i < list.len() ==> is_resource(#[trigger] list[i])
}

/// The resources that a user means: where none is named, all of them.
pub open spec fn meant_resources(named: Seq<Seq<char>>) -> Seq<Seq<char>> {
    if named.len() == 0 {
        seq!["*"@]
    } else {
        named
    }
}

/// The resources that a user named; where there are none, all resources.
pub open spec fn normalized_resources(named: Seq<Seq<char>>) -> Result<Seq<Seq<char>>, Seq<char>> {
    if named.len() > RESOURCE_COUNT_LIMIT {
        Err("At most 25 resources can be simulated in one command."@)
    } else if all_resources(meant_resources(named)) {
        Ok(meant_resources(named))
    } else {
        Err("Each resource must be * or a non-empty ARN of at most 2048 characters."@)
    }
}

fn names_a_service(text: &str) -> (r: bool)
    ensures
        r == is_service_name(text@),
{
    let chars = chars_of(text);
    if chars.len() == 0 {
        return false;
    }
    let mut i: usize = 0;
    while i < chars.len()
        invariant
            chars@ == text@,
            i <= chars@.len(),
            forall|k: int|
                0 <= k < i ==> is_ascii_lower(#[trigger] text@[k]) || is_ascii_digit(text@[k])
                    || text@[k] == '-',
        decreases chars.len() - i,
    {
        let c = chars[i];
        let plain = ('0' <= c && c <= '9') || ('a' <= c && c <= 'z') || c == '-';
        if !plain {
            assert(!is_ascii_lower(text@[i as int]));
            return false;
        }
        i += 1;
    }
    true
}

fn names_an_action(text: &str) -> (r: bool)
    ensures
        r == is_action_name(text@),
{
    !text.is_empty() && all_name_chars(text)
}

/// The service that a user named, in lower case.
pub fn normalize_service(service: &str) -> (r: Result<String, String>)
    ensures
        outcome(r) == normalized_service(service@),
{
    let normalized = lower_ascii(service);
    if names_a_service(normalized.as_str()) {
        Ok(normalized)
    } else {
        Err(
            "Service must be an IAM service prefix such as s3, ec2, or secretsmanager.".to_owned(),
        )
    }
}

fn invalid_action(action: &str) -> (r: String)
    ensures
        r@ == "Invalid IAM action: "@ + action@,
{
    let mut error = "Invalid IAM action: ".to_owned();
    error.append(action);
    error
}

fn qualified(service: &str, name: &str) -> (r: String)
    ensures
        r@ == service@ + ":"@ + name@,
{
    let mut action = service.to_owned();
    action.append(":");
    action.append(name);
    action
}

/// The action that a user named, with its service in front of it.
pub fn normalize_action(action: &str, expected_service: Option<&str>) -> (r: Result<
    String,
    String,
>)
    ensures
        outcome(r) == normalized_action(action@, opt_str(expected_service)),
{
    match split_once(action, ':') {
        Some((prefix, name)) => {
            let service = match normalize_service(prefix.as_str()) {
                Ok(service) => service,
                Err(error) => {
                    return Err(error);
                },
            };
            if !names_an_action(name.as_str()) {
                return Err(invalid_action(action));
            }
            if let Some(expected) = expected_service {
                if !same_text(expected, service.as_str()) {
                    let mut error = "Action ".to_owned();
                    error.append(action);
                    error.append(" does not belong to requested service ");
                    error.append(expected);
                    error.append(".");
                    return Err(error);
                }
            }
            Ok(qualified(service.as_str(), name.as_str()))
        },
        None => match expected_service {
            None => {
                let mut error =
                    "Action must include its service prefix, for example s3:".to_owned();
                error.append(action);
                error.append(".");
                Err(error)
            },
            Some(service) => {
                if !names_an_action(action) {
                    return Err(invalid_action(action));
                }
                Ok(qualified(service, action))
            },
        },
    }
}

fn can_be_simulated(resource: &str) -> (r: bool)
    ensures
        r == is_resource(resource@),
{
    if resource.is_empty() || resource.as_bytes().len() > RESOURCE_LENGTH_LIMIT {
        return false;
    }
    let chars = chars_of(resource);
    let mut i: usize = 0;
    while i < chars.len()
        invariant
            chars@ == resource@,
            i <= chars@.len(),
            forall|k: int| 0 <= k < i ==> !is_control_char(#[trigger] resource@[k]),
        decreases chars.len() - i,
    {
        if chars[i].is_control() {
            assert(is_control_char(resource@[i as int]));
            return false;
        }
        i += 1;
    }
    true
}

/// The view of a list of texts, or of why there is none.
pub open spec fn list_outcome(value: Result<Vec<String>, String>) -> Result<
    Seq<Seq<char>>,
    Seq<char>,
> {
    match value {
        Ok(list) => Ok(texts(list@)),
        Err(e) => Err(e@),
    }
}

/// The resources that a user named; where there are none, all resources.
pub fn normalize_resources(resources: Vec<String>) -> (r: Result<Vec<String>, String>)
    ensures
        list_outcome(r) == normalized_resources(texts(resources@)),
{
    broadcast use lemma_texts_push;

    if resources.len() > RESOURCE_COUNT_LIMIT {
        return Err("At most 25 resources can be simulated in one command.".to_owned());
    }
    let mut named = resources;
    if named.len() == 0 {
        named.push("*".to_owned());
        assert(texts(named@) =~= seq!["*"@]);
    }
    let ghost all = texts(named@);
    let mut i: usize = 0;
    while i < named.len()
        invariant
            i <= named@.len(),
            all == texts(named@),
            all == meant_resources(texts(resources@)),
            resources@.len() <= RESOURCE_COUNT_LIMIT,
            forall|k: int| 0 <= k < i ==> is_resource(#[trigger] all[k]),
        decreases named.len() - i,
    {
        if !can_be_simulated(named[i].as_str()) {
            assert(!is_resource(all[i as int]));
            return Err(
                "Each resource must be * or a non-empty ARN of at most 2048 characters.".to_owned(),
            );
        }
        assert(is_resource(all[i as int]));
        i += 1;
    }
    Ok(named)
}

/// An entry of the list of services.
#[derive(Debug)]
pub struct ServiceIndexEntry {
    pub service: String,
    pub url: String,
}

pub struct IndexEntryView {
    pub service: Seq<char>,
    pub url: Seq<char>,
}

impl View for ServiceIndexEntry {
    type V = IndexEntryView;

    open spec fn view(&self) -> IndexEntryView {
        IndexEntryView { service: self.service@, url: self.url@ }
    }
}

/// A type of resource that an action works on, by its name.
#[derive(Debug, Clone)]
pub struct ActionResource {
    pub name: String,
}

impl View for ActionResource {
    type V = Seq<char>;

    open spec fn view(&self) -> Seq<char> {
        self.name@
    }
}

/// An action of a service, with the types of resource that it works on.
#[derive(Debug, Clone)]
pub struct ServiceAction {
    pub name: String,
    pub resources: Vec<ActionResource>,
}

pub struct ActionView {
    pub name: Seq<char>,
    pub resources: Seq<Seq<char>>,
}

impl View for ServiceAction {
    type V = ActionView;

    open spec fn view(&self) -> ActionView {
        ActionView { name: self.name@, resources: views(self.resources@) }
    }
}

/// A type of resource of a service, with the forms that its ARNs have.
#[derive(Debug, Clone)]
pub struct ServiceResource {
    pub name: String,
    pub arn_formats: Vec<String>,
}

pub struct ResourceView {
    pub name: Seq<char>,
    pub arn_formats: Seq<Seq<char>>,
}

impl View for ServiceResource {
    type V = ResourceView;

    open spec fn view(&self) -> ResourceView {
        ResourceView { name: self.name@, arn_formats: texts(self.arn_formats@) }
    }
}

/// What the reference says of a service.
#[derive(Debug, Clone)]
pub struct ServiceReference {
    pub name: String,
    pub actions: Vec<ServiceAction>,
    pub resources: Vec<ServiceResource>,
}

pub struct ReferenceView {
    pub name: Seq<char>,
    pub actions: Seq<ActionView>,
    pub resources: Seq<ResourceView>,
}

impl View for ServiceReference {
    type V = ReferenceView;

    open spec fn view(&self) -> ReferenceView {
        ReferenceView {
            name: self.name@,
            actions: views(self.actions@),
            resources: views(self.resources@),
        }
    }
}

/// The first entry for a service.
pub open spec fn entry_for(index: Seq<IndexEntryView>, service: Seq<char>) -> Option<IndexEntryView>
    decreases index.len(),
{
    if index.len() == 0 {
        None
    } else if index[0].service == service {
        Some(index[0])
    } else {
        entry_for(index.skip(1), service)
    }
}

/// The address of a service's part of the reference, by the list of services. A
/// list that could not be read is none, and an address elsewhere is refused.
pub open spec fn url_for(index: Option<Seq<IndexEntryView>>, service: Seq<char>) -> Result<
    Seq<char>,
    Seq<char>,
> {
    match index {
        None => Err("AWS returned an unreadable service-reference index."@),
        Some(entries) => match entry_for(entries, service) {
            None => Err(
                "AWS Service Authorization Reference has no service named "@ + service + "."@,
            ),
            Some(entry) => if begins_with(entry.url, SERVICE_REFERENCE_ORIGIN@) {
                Ok(entry.url)
            } else {
                Err("AWS service-reference index returned an unexpected URL."@)
            },
        },
    }
}

/// The view of a list that may be there.
pub open spec fn opt_list<T: View>(list: Option<Vec<T>>) -> Option<Seq<T::V>> {
    match list {
        Some(items) => Some(views(items@)),
        None => None,
    }
}

/// The address of a service's part of the reference, by the list of services.
pub fn reference_url(index: &Option<Vec<ServiceIndexEntry>>, service: &str) -> (r: Result<
    String,
    String,
>)
    ensures
        outcome(r) == url_for(opt_list(*index), service@),
{
    let entries = match index {
        None => {
            return Err("AWS returned an unreadable service-reference index.".to_owned());
        },
        Some(entries) => entries,
    };
    let ghost all = views(entries@);
    let mut i: usize = 0;
    assert(all.skip(0) =~= all);
    while i < entries.len() && !same_text(entries[i].service.as_str(), service)
        invariant
            i <= entries@.len(),
            all == views(entries@),
            entry_for(all, service@) == entry_for(all.skip(i as int), service@),
        decreases entries.len() - i,
    {
        assert(all.skip(i as int)[0] == entries@[i as int]@);
        assert(all.skip(i as int).skip(1) =~= all.skip(i + 1));
        i += 1;
    }
    if i == entries.len() {
        let mut error = "AWS Service Authorization Reference has no service named ".to_owned();
        error.append(service);
        error.append(".");
        return Err(error);
    }
    assert(all.skip(i as int)[0] == entries@[i as int]@);
    let url = entries[i].url.as_str();
    if starts_with(url, SERVICE_REFERENCE_ORIGIN) {
        Ok(url.to_owned())
    } else {
        Err("AWS service-reference index returned an unexpected URL.".to_owned())
    }
}

/// A service's part of the reference, where it could be read and is of that
/// service.
pub open spec fn accepted_reference(reference: Option<ReferenceView>, service: Seq<char>) -> Result<
    ReferenceView,
    Seq<char>,
> {
    match reference {
        None => Err("AWS returned unreadable authorization data for "@ + service + "."@),
        Some(found) => if same_ignoring_case(found.name, service) {
            Ok(found)
        } else {
            Err("AWS service-reference response did not match the requested service."@)
        },
    }
}

/// A service's part of the reference, where it could be read and is of that
/// service.
pub fn accept_reference(reference: Option<ServiceReference>, service: &str) -> (r: Result<
    ServiceReference,
    String,
>)
    ensures
        outcome(r) == accepted_reference(crate::model::opt_view(reference), service@),
{
    match reference {
        None => {
            let mut error = "AWS returned unreadable authorization data for ".to_owned();
            error.append(service);
            error.append(".");
            Err(error)
        },
        Some(found) => {
            if equal_ignoring_case(found.name.as_str(), service) {
                Ok(found)
            } else {
                Err(
                    "AWS service-reference response did not match the requested service.".to_owned(),
                )
            }
        },
    }
}

/// The actions of a service as the reference lists them, each with the service in
/// front of it.
pub open spec fn listed_actions(reference: ReferenceView, service: Seq<char>) -> Seq<Seq<char>> {
    Seq::new(reference.actions.len(), |i: int| service + ":"@ + reference.actions[i].name)
}

/// The actions of a service in order, each once. `fetched` is the service's part
/// of the reference, or why there is none.
pub open spec fn service_actions(
    service: Seq<char>,
    fetched: Result<ReferenceView, Seq<char>>,
) -> Result<Seq<Seq<char>>, Seq<char>> {
    match normalized_service(service) {
        Err(error) => Err(error),
        Ok(name) => match fetched {
            Err(error) => Err(error),
            Ok(reference) => if reference.actions.len() == 0 {
                Err("AWS listed no IAM actions for "@ + name + "."@)
            } else {
                Ok(ordered(listed_actions(reference, name)))
            },
        },
    }
}

/// The actions of a service in order, each once. `fetched` is the part of the
/// reference of the service in lower case, or why there is none.
pub fn fetch_service_actions(service: &str, fetched: &Result<ServiceReference, String>) -> (r:
    Result<Vec<String>, String>)
    ensures
        list_outcome(r) == service_actions(service@, outcome(*fetched)),
        r matches Ok(actions) ==> {
            &&& actions@.len() > 0
            &&& is_ordering_of(
                texts(actions@),
                listed_actions(fetched->Ok_0@, ascii_lower(service@)),
            )
        },
{
    let name = match normalize_service(service) {
        Ok(name) => name,
        Err(error) => {
            return Err(error);
        },
    };
    let reference = match fetched {
        Ok(reference) => reference,
        Err(error) => {
            return Err(error.clone());
        },
    };
    let ghost all = listed_actions(reference@, name@);
    let mut actions: Vec<String> = Vec::new();
    let mut i: usize = 0;
    while i < reference.actions.len()
        invariant
            i <= reference.actions@.len(),
            all == listed_actions(reference@, name@),
            texts(actions@) =~= all.take(i as int),
        decreases reference.actions.len() - i,
    {
        broadcast use lemma_texts_push;

        assert(reference@.actions[i as int] == reference.actions@[i as int]@);
        actions.push(qualified(name.as_str(), reference.actions[i].name.as_str()));
        i += 1;
    }
    assert(texts(actions@) =~= all);
    let sorted = sorted_unique(&actions);
    if sorted.len() == 0 {
        assert(all.len() == 0) by {
            if all.len() > 0 {
                assert(all.contains(all[0]));
                assert(texts(sorted@).contains(all[0]));
            }
        }
        let mut error = "AWS listed no IAM actions for ".to_owned();
        error.append(name.as_str());
        error.append(".");
        return Err(error);
    }
    assert(reference@.actions.len() > 0) by {
        assert(texts(sorted@).contains(texts(sorted@)[0]));
    }
    Ok(sorted)
}

/// What stands for a placeholder of a template in a regular expression.
pub open spec fn placeholder_pattern(name: Seq<char>) -> Seq<char> {
    if name == "Partition"@ {
        r"[^:]+"@
    } else if name == "Region"@ || name == "Account"@ {
        r"[^:]*"@
    } else {
        r"[^\s]+"@
    }
}

/// The regular expression for a template: its placeholders `${..}` by what they
/// stand for, and the rest as it is. None where a placeholder does not end.
pub open spec fn template_pattern(template: Seq<char>) -> Option<Seq<char>>
    decreases template.len(),
{
    match find_from(template, "${"@, 0) {
        None => Some(regex_escaped(template)),
        Some(start) => match split_first(template.skip(start + 2), '}') {
            None => None,
            Some((name, rest)) => {
                proof {
                    lemma_template_gets_shorter(template);
                }
                match template_pattern(rest) {
                    None => None,
                    Some(pattern) => Some(
                        regex_escaped(template.take(start)) + placeholder_pattern(name) + pattern,
                    ),
                }
            },
        },
    }
}

/// What follows a placeholder is shorter than the template.
pub proof fn lemma_template_gets_shorter(template: Seq<char>)
    ensures
        find_from(template, "${"@, 0) matches Some(start) ==> (split_first(
            template.skip(start + 2),
            '}',
        ) matches Some((_, rest)) ==> rest.len() < template.len()),
{
    reveal_strlit("${");
    lemma_find_from(template, "${"@, 0);
    if let Some(start) = find_from(template, "${"@, 0) {
        lemma_index_of(template.skip(start + 2), '}', 0);
    }
}

/// A resource has the form that a template gives.
pub open spec fn matches_template(template: Seq<char>, resource: Seq<char>) -> bool {
    match template_pattern(template) {
        Some(pattern) => regex_matches("^"@ + pattern + "$"@, resource),
        None => false,
    }
}

/// The regular expression for a template, between `^` and `$`.
pub fn arn_template_pattern(template: &str) -> (r: Option<String>)
    ensures
        match template_pattern(template@) {
            Some(pattern) => r matches Some(text) && text@ == "^"@ + pattern + "$"@,
            None => r is None,
        },
{
    let opening = chars_of("${");
    let mut pattern = "^".to_owned();
    let mut remaining = template.to_owned();
    loop
        invariant
            opening@ == "${"@,
            match (template_pattern(template@), template_pattern(remaining@)) {
                (Some(whole), Some(rest)) => pattern@ + rest == "^"@ + whole,
                (None, None) => true,
                _ => false,
            },
        decreases remaining@.len(),
    {
        proof {
            reveal_strlit("${");
        }
        let chars = chars_of(remaining.as_str());
        let start = match find_part(&chars, &opening, 0) {
            Some(start) => start,
            None => {
                pattern.append(escape_pattern(remaining.as_str()).as_str());
                pattern.append("$");
                return Some(pattern);
            },
        };
        assert(start + 2 <= chars.len());
        let front = part_of(remaining.as_str(), 0, start);
        let behind = part_of(remaining.as_str(), start + 2, chars.len());
        assert(front@ =~= remaining@.take(start as int));
        assert(behind@ =~= remaining@.skip(start + 2));
        proof {
            lemma_index_of(behind@, '}', 0);
        }
        let (name, rest) = match split_once(behind.as_str(), '}') {
            Some(parts) => parts,
            None => {
                return None;
            },
        };
        let ghost before = pattern@;
        pattern.append(escape_pattern(front.as_str()).as_str());
        if same_text(name.as_str(), "Partition") {
            pattern.append(r"[^:]+");
        } else if same_text(name.as_str(), "Region") || same_text(name.as_str(), "Account") {
            pattern.append(r"[^:]*");
        } else {
            pattern.append(r"[^\s]+");
        }
        proof {
            if let Some(tail) = template_pattern(rest@) {
                assert(pattern@ + tail =~= before + (regex_escaped(front@) + placeholder_pattern(
                    name@,
                ) + tail));
            }
        }
        remaining = rest;
    }
}

/// Whether a resource has the form that a template gives.
pub fn arn_template_matches(template: &str, resource: &str) -> (r: bool)
    ensures
        r == matches_template(template@, resource@),
{
    match arn_template_pattern(template) {
        Some(pattern) => has_match(pattern.as_str(), resource),
        None => false,
    }
}

/// Whether a resource can stand beside an action, why, and which types of resource
/// the action works on.
#[derive(Debug, Clone, PartialEq, Eq)]
pub struct ResourceValidation {
    pub valid: bool,
    pub detail: String,
    pub resource_types: Vec<String>,
}

pub struct ResourceValidationView {
    pub valid: bool,
    pub detail: Seq<char>,
    pub resource_types: Seq<Seq<char>>,
}

impl View for ResourceValidation {
    type V = ResourceValidationView;

    open spec fn view(&self) -> ResourceValidationView {
        ResourceValidationView {
            valid: self.valid,
            detail: self.detail@,
            resource_types: texts(self.resource_types@),
        }
    }
}

/// The first action of a name, whatever the case of its letters.
pub open spec fn action_named(actions: Seq<ActionView>, name: Seq<char>) -> Option<ActionView>
    decreases actions.len(),
{
    if actions.len() == 0 {
        None
    } else if same_ignoring_case(actions[0].name, name) {
        Some(actions[0])
    } else {
        action_named(actions.skip(1), name)
    }
}

/// A type of resource has a form that the resource has.
pub open spec fn has_form(kind: ResourceView, resource: Seq<char>) -> bool {
    exists|k: int|
        0 <= k < kind.arn_formats.len() && matches_template(
            #[trigger] kind.arn_formats[k],
            resource,
        )
}

/// The resource has a form of some type of resource that the action works on.
pub open spec fn fits(
    reference: ReferenceView,
    kinds: Seq<Seq<char>>,
    resource: Seq<char>,
) -> bool {
    exists|i: int, j: int|
        0 <= i < kinds.len() && 0 <= j < reference.resources.len() && (
        #[trigger] reference.resources[j]).name == #[trigger] kinds[i] && has_form(
            reference.resources[j],
            resource,
        )
}

/// What is said of an action on a resource, where `fit` tells whether the resource
/// has a form of some type of resource that the action works on. An action that works
/// on no type of resource takes `*` alone; any other takes `*`, and what fits.
pub open spec fn judged(
    action: ActionView,
    resource: Seq<char>,
    fit: bool,
) -> ResourceValidationView {
    let kinds = ordered(action.resources);
    if action.resources.len() == 0 {
        ResourceValidationView {
            valid: resource == "*"@,
            detail: if resource == "*"@ {
                "AWS lists this action without resource-level permissions; Resource \"*\" is required."@
            } else {
                "AWS lists this action without resource-level permissions, so the reported ARN cannot scope an Allow; Resource \"*\" is required."@
            },
            resource_types: kinds,
        }
    } else if resource == "*"@ {
        ResourceValidationView {
            valid: true,
            detail: "AWS supports resource types "@ + joined(kinds, ", "@)
                + "; Resource \"*\" is valid but broad."@,
            resource_types: kinds,
        }
    } else if fit {
        ResourceValidationView {
            valid: true,
            detail: "The reported resource matches AWS resource type "@ + joined(kinds, " or "@)
                + "."@,
            resource_types: kinds,
        }
    } else {
        ResourceValidationView {
            valid: false,
            detail: "The reported resource does not match the AWS resource types supported by this action: "@
                + joined(kinds, ", "@) + ". No candidate policy was generated."@,
            resource_types: kinds,
        }
    }
}

/// What the reference says of an action on a resource.
pub open spec fn validated(
    reference: ReferenceView,
    action_name: Seq<char>,
    resource: Seq<char>,
) -> Result<ResourceValidationView, Seq<char>> {
    match action_named(reference.actions, action_name) {
        None => Err(
            "AWS Service Authorization Reference has no action named "@ + reference.name + ":"@
                + action_name + "."@,
        ),
        Some(action) => Ok(judged(action, resource, fits(reference, action.resources, resource))),
    }
}

fn find_action<'a>(actions: &'a Vec<ServiceAction>, name: &str) -> (r: Option<&'a ServiceAction>)
    ensures
        match action_named(views(actions@), name@) {
            Some(action) => r matches Some(found) && found@ == action,
            None => r is None,
        },
{
    let ghost all = views(actions@);
    let mut i: usize = 0;
    assert(all.skip(0) =~= all);
    while i < actions.len()
        invariant
            i <= actions@.len(),
            all == views(actions@),
            action_named(all, name@) == action_named(all.skip(i as int), name@),
        decreases actions.len() - i,
    {
        assert(all.skip(i as int)[0] == actions@[i as int]@);
        assert(all.skip(i as int).skip(1) =~= all.skip(i + 1));
        if equal_ignoring_case(actions[i].name.as_str(), name) {
            return Some(&actions[i]);
        }
        i += 1;
    }
    None
}

fn kind_names(kinds: &Vec<ActionResource>) -> (r: Vec<String>)
    ensures
        texts(r@) == views(kinds@),
{
    let mut names: Vec<String> = Vec::new();
    let mut i: usize = 0;
    while i < kinds.len()
        invariant
            i <= kinds@.len(),
            texts(names@) =~= views(kinds@).take(i as int),
        decreases kinds.len() - i,
    {
        broadcast use lemma_texts_push;

        names.push(kinds[i].name.clone());
        i += 1;
    }
    names
}

fn resource_has_form(kind: &ServiceResource, resource: &str) -> (r: bool)
    ensures
        r == has_form(kind@, resource@),
{
    let mut k: usize = 0;
    while k < kind.arn_formats.len()
        invariant
            k <= kind.arn_formats@.len(),
            forall|n: int|
                0 <= n < k ==> !matches_template(#[trigger] kind@.arn_formats[n], resource@),
        decreases kind.arn_formats.len() - k,
    {
        assert(kind@.arn_formats[k as int] == kind.arn_formats@[k as int]@);
        if arn_template_matches(kind.arn_formats[k].as_str(), resource) {
            return true;
        }
        k += 1;
    }
    false
}

fn resource_fits(
    reference: &ServiceReference,
    kinds: &Vec<ActionResource>,
    resource: &str,
) -> (r: bool)
    ensures
        r == fits(reference@, views(kinds@), resource@),
{
    let ghost known = reference@.resources;
    let ghost wanted = views(kinds@);
    let mut i: usize = 0;
    while i < kinds.len()
        invariant
            i <= kinds@.len(),
            known == views(reference.resources@),
            known == reference@.resources,
            wanted == views(kinds@),
            forall|n: int, m: int|
                0 <= n < i && 0 <= m < known.len() && (#[trigger] known[m]).name
                    == #[trigger] wanted[n] ==> !has_form(known[m], resource@),
        decreases kinds.len() - i,
    {
        let mut j: usize = 0;
        while j < reference.resources.len()
            invariant
                i < kinds@.len(),
                j <= reference.resources@.len(),
                known == views(reference.resources@),
                known == reference@.resources,
                wanted == views(kinds@),
                forall|n: int, m: int|
                    0 <= n < i && 0 <= m < known.len() && (#[trigger] known[m]).name
                        == #[trigger] wanted[n] ==> !has_form(known[m], resource@),
                forall|m: int|
                    0 <= m < j && (#[trigger] known[m]).name == wanted[i as int] ==> !has_form(
                        known[m],
                        resource@,
                    ),
            decreases reference.resources.len() - j,
        {
            let kind = &reference.resources[j];
            assert(known[j as int] == kind@);
            assert(wanted[i as int] == kinds@[i as int]@);
            if same_text(kind.name.as_str(), kinds[i].name.as_str()) {
                if resource_has_form(kind, resource) {
                    return true;
                }
            }
            j += 1;
        }
        i += 1;
    }
    false
}

/// What is said of an action on a resource, where `fit` tells whether the resource
/// has a form of some type of resource that the action works on.
pub fn judge_resource(action: &ServiceAction, resource: &str, fit: bool) -> (r: ResourceValidation)
    ensures
        r@ == judged(action@, resource@, fit),
{
    let resource_types = sorted_unique(&kind_names(&action.resources));
    let all = same_text(resource, "*");
    if action.resources.len() == 0 {
        let detail = if all {
            "AWS lists this action without resource-level permissions; Resource \"*\" is required."
        } else {
            "AWS lists this action without resource-level permissions, so the reported ARN cannot scope an Allow; Resource \"*\" is required."
        };
        return ResourceValidation { valid: all, detail: detail.to_owned(), resource_types };
    }
    if all {
        let mut detail = "AWS supports resource types ".to_owned();
        detail.append(join(&resource_types, ", ").as_str());
        detail.append("; Resource \"*\" is valid but broad.");
        return ResourceValidation { valid: true, detail, resource_types };
    }
    if fit {
        let mut detail = "The reported resource matches AWS resource type ".to_owned();
        detail.append(join(&resource_types, " or ").as_str());
        detail.append(".");
        ResourceValidation { valid: true, detail, resource_types }
    } else {
        let mut detail =
            "The reported resource does not match the AWS resource types supported by this action: ".to_owned();
        detail.append(join(&resource_types, ", ").as_str());
        detail.append(". No candidate policy was generated.");
        ResourceValidation { valid: false, detail, resource_types }
    }
}

/// What the reference says of an action on a resource.
pub fn validate_from_reference(
    reference: &ServiceReference,
    action_name: &str,
    resource: &str,
) -> (r: Result<ResourceValidation, String>)
    ensures
        outcome(r) == validated(reference@, action_name@, resource@),
{
    let action = match find_action(&reference.actions, action_name) {
        Some(action) => action,
        None => {
            let mut error = "AWS Service Authorization Reference has no action named ".to_owned();
            error.append(reference.name.as_str());
            error.append(":");
            error.append(action_name);
            error.append(".");
            return Err(error);
        },
    };
    let fit = !same_text(resource, "*") && resource_fits(reference, &action.resources, resource);
    Ok(judge_resource(action, resource, fit))
}

proof fn lemma_service_name_is_lower(name: Seq<char>)
    requires
        is_service_name(name),
    ensures
        ascii_lower(name) == name,
{
    assert(ascii_lower(name) =~= name);
}

proof fn lemma_qualified(service: Seq<char>, name: Seq<char>)
    requires
        is_service_name(service),
    ensures
        split_first(service + ":"@ + name, ':') == Some((service, name)),
{
    reveal_strlit(":");
    assert(service + ":"@ + name =~= service.push(':') + name);
    assert(!service.contains(':')) by {
        if service.contains(':') {
            let i = choose|i: int| 0 <= i < service.len() && service[i] == ':';
            assert(is_ascii_lower(service[i]) || is_ascii_digit(service[i]));
        }
    }
    lemma_split_first_of(service, ':', name);
}

/// A service that was accepted holds lower case letters, digits and hyphens only,
/// so it is no way to another address, and is accepted as it is.
pub proof fn law_normalized_services(service: Seq<char>)
    ensures
        normalized_service(service) matches Ok(name) ==> is_service_name(name)
            && normalized_service(name) == Ok::<Seq<char>, Seq<char>>(name),
{
    if let Ok(name) = normalized_service(service) {
        lemma_service_name_is_lower(name);
    }
}

/// An action that was accepted is made of a service, a colon and the name of an
/// action; it is of the expected service where there is one, and is accepted as
/// it is.
pub proof fn law_normalized_actions(action: Seq<char>, expected: Option<Seq<char>>)
    requires
        expected matches Some(service) ==> is_service_name(service),
    ensures
        normalized_action(action, expected) matches Ok(full) ==> {
            &&& split_first(full, ':') matches Some((service, name)) && is_service_name(service)
                && is_action_name(name) && full == service + ":"@ + name && (expected matches Some(
                wanted,
            ) ==> service == wanted)
            &&& normalized_action(full, expected) == Ok::<Seq<char>, Seq<char>>(full)
            &&& normalized_action(full, None) == Ok::<Seq<char>, Seq<char>>(full)
        },
{
    if let Ok(full) = normalized_action(action, expected) {
        match split_first(action, ':') {
            Some((prefix, name)) => {
                law_normalized_services(prefix);
                lemma_qualified(ascii_lower(prefix), name);
            },
            None => {
                let service = expected.unwrap();
                lemma_service_name_is_lower(service);
                lemma_qualified(service, action);
            },
        }
    }
}

/// Resources that were accepted are at least one and at most as many as can be
/// simulated in one command, and are accepted as they are.
pub proof fn law_normalized_resources(named: Seq<Seq<char>>)
    ensures
        normalized_resources(named) matches Ok(list) ==> {
            &&& 1 <= list.len() <= RESOURCE_COUNT_LIMIT
            &&& all_resources(list)
            &&& normalized_resources(list) == Ok::<Seq<Seq<char>>, Seq<char>>(list)
        },
{
}

/// What is known of the services that were asked for: a service's part of the
/// reference, or why it could not be had.
pub struct ResourceValidator {
    references: Vec<(String, Result<ServiceReference, String>)>,
}

/// The services of a list of references, in its order.
spec fn services_of(list: Seq<(String, Result<ServiceReference, String>)>) -> Seq<Seq<char>> {
    Seq::new(list.len(), |i: int| list[i].0@)
}

impl View for ResourceValidator {
    type V = Map<Seq<char>, Result<ReferenceView, Seq<char>>>;

    closed spec fn view(&self) -> Map<Seq<char>, Result<ReferenceView, Seq<char>>> {
        Map::new(
            |service: Seq<char>| services_of(self.references@).contains(service),
            |service: Seq<char>|
                outcome(self.references@[services_of(self.references@).index_of(service)].1),
        )
    }
}

/// What comes next in the validation of a resource: a part of the reference to
/// fetch, or the end.
#[derive(Debug)]
pub enum ValidationStep {
    NeedReference(String),
    Done(Result<ResourceValidation, String>),
}

pub enum ValidationStepView {
    NeedReference(Seq<char>),
    Done(Result<ResourceValidationView, Seq<char>>),
}

impl View for ValidationStep {
    type V = ValidationStepView;

    open spec fn view(&self) -> ValidationStepView {
        match self {
            ValidationStep::NeedReference(service) => ValidationStepView::NeedReference(service@),
            ValidationStep::Done(result) => ValidationStepView::Done(outcome(*result)),
        }
    }
}

/// What comes next in the validation of a resource beside an action.
pub open spec fn validation_step(
    known: Map<Seq<char>, Result<ReferenceView, Seq<char>>>,
    action: Seq<char>,
    resource: Seq<char>,
) -> ValidationStepView {
    match normalized_action(action, None) {
        Err(error) => ValidationStepView::Done(Err(error)),
        Ok(full) => {
            let (service, name) = split_first(full, ':').unwrap();
            if !known.contains_key(service) {
                ValidationStepView::NeedReference(service)
            } else {
                ValidationStepView::Done(
                    match known[service] {
                        Ok(reference) => validated(reference, name, resource),
                        Err(error) => Err(error),
                    },
                )
            }
        },
    }
}

impl ResourceValidator {
    /// No service is there twice.
    #[verifier::type_invariant]
    spec fn wf(self) -> bool {
        services_of(self.references@).no_duplicates()
    }

    pub fn new() -> (r: Self)
        ensures
            r@ == Map::<Seq<char>, Result<ReferenceView, Seq<char>>>::empty(),
    {
        let r = ResourceValidator { references: Vec::new() };
        assert(r@ =~= Map::empty());
        r
    }

    fn find(&self, service: &str) -> (r: Option<&Result<ServiceReference, String>>)
        ensures
            match r {
                Some(found) => self@.contains_key(service@) && self@[service@] == outcome(*found),
                None => !self@.contains_key(service@),
            },
    {
        let ghost services = services_of(self.references@);
        let mut i: usize = 0;
        while i < self.references.len()
            invariant
                i <= self.references@.len(),
                services == services_of(self.references@),
                forall|k: int| 0 <= k < i ==> #[trigger] services[k] != service@,
            decreases self.references.len() - i,
        {
            let entry = &self.references[i];
            assert(services[i as int] == entry.0@);
            if same_text(entry.0.as_str(), service) {
                proof {
                    use_type_invariant(self);
                    assert(services.contains(service@));
                    let at = services.index_of(service@);
                    assert(services[at] == service@);
                    assert(at == i);
                }
                return Some(&entry.1);
            }
            i += 1;
        }
        None
    }

    /// What comes next in the validation of a resource beside an action.
    pub fn validate(&self, action: &str, resource: &str) -> (r: ValidationStep)
        ensures
            r@ == validation_step(self@, action@, resource@),
    {
        let full = match normalize_action(action, None) {
            Ok(full) => full,
            Err(error) => {
                return ValidationStep::Done(Err(error));
            },
        };
        proof {
            law_normalized_actions(action@, None);
        }
        let (service, name) = match split_once(full.as_str(), ':') {
            Some(parts) => parts,
            None => {
                return ValidationStep::Done(Err(invalid_action(full.as_str())));
            },
        };
        match self.find(service.as_str()) {
            None => ValidationStep::NeedReference(service),
            Some(Ok(reference)) => ValidationStep::Done(
                validate_from_reference(reference, name.as_str(), resource),
            ),
            Some(Err(error)) => ValidationStep::Done(Err(error.clone())),
        }
    }

    /// Takes in a service's part of the reference, or why it could not be had. What
    /// is known of a service stays.
    pub fn provide(&mut self, service: &str, fetched: Result<ServiceReference, String>)
        ensures
            final(self)@ == if old(self)@.contains_key(service@) {
                old(self)@
            } else {
                old(self)@.insert(service@, outcome(fetched))
            },
    {
        if self.find(service).is_some() {
            return;
        }
        proof {
            use_type_invariant(&*self);
        }
        let ghost before = self@;
        let mut references: Vec<(String, Result<ServiceReference, String>)> = Vec::new();
        std::mem::swap(&mut references, &mut self.references);
        let ghost listed = references@;
        let ghost services = services_of(listed);
        references.push((service.to_owned(), fetched));
        proof {
            let longer = services_of(references@);
            assert(longer =~= services.push(service@));
            assert(before.contains_key(service@) == services.contains(service@));
            assert(longer.no_duplicates());
            assert forall|s: Seq<char>| longer.contains(s) == (services.contains(s) || s
                == service@) by {
                if services.contains(s) {
                    let k = services.index_of(s);
                    assert(longer[k] == s);
                }
                assert(longer[services.len() as int] == service@);
            }
            assert forall|s: Seq<char>| services.contains(s) implies longer.index_of(s)
                == services.index_of(s) by {
                let k = services.index_of(s);
                assert(longer[k] == s);
                let m = longer.index_of(s);
                assert(longer[m] == s);
            }
            assert(longer.contains(service@));
            assert(longer.index_of(service@) == services.len()) by {
                let m = longer.index_of(service@);
                assert(longer[m] == service@);
                assert(longer[services.len() as int] == service@);
            }
        }
        self.references = references;
        assert(self@ =~= before.insert(service@, outcome(fetched)));
    }
}

/// A part of the reference is asked for only where nothing is known of its
/// service, and once it is known the resource is judged without another question
/// about that service, beside this action and beside any other.
pub proof fn law_each_reference_is_asked_for_once(
    known: Map<Seq<char>, Result<ReferenceView, Seq<char>>>,
    action: Seq<char>,
    resource: Seq<char>,
    service: Seq<char>,
    fetched: Result<ReferenceView, Seq<char>>,
    other_action: Seq<char>,
    other_resource: Seq<char>,
)
    requires
        validation_step(known, action, resource) == ValidationStepView::NeedReference(service),
    ensures
        !known.contains_key(service),
        is_service_name(service),
        validation_step(known.insert(service, fetched), action, resource) is Done,
        validation_step(known.insert(service, fetched), other_action, other_resource)
            != ValidationStepView::NeedReference(service),
{
    law_normalized_actions(action, None);
}

/// `*` is valid beside every action that the reference knows, and beside an action
/// without resource-level permissions nothing else is.
pub proof fn law_wildcard_is_valid(
    reference: ReferenceView,
    action_name: Seq<char>,
    resource: Seq<char>,
)
    ensures
        validated(reference, action_name, "*"@) matches Ok(validation) ==> validation.valid,
        action_named(reference.actions, action_name) matches Some(action) ==> (
        action.resources.len() == 0 ==> (validated(reference, action_name, resource) matches Ok(
            validation,
        ) && (validation.valid <==> resource == "*"@))),
{
}

/// A resource is judged by the part of the reference that was fetched for its
/// action's service, or by why that could not be had.
pub open spec fn candidate_validation(
    action: Seq<char>,
    resource: Seq<char>,
    fetched: Result<ReferenceView, Seq<char>>,
) -> Result<ResourceValidationView, Seq<char>> {
    match normalized_action(action, None) {
        Err(error) => Err(error),
        Ok(full) => match fetched {
            Err(error) => Err(error),
            Ok(reference) => validated(reference, split_first(full, ':').unwrap().1, resource),
        },
    }
}

/// Judges a resource beside an action. `fetched` is the part of the reference of
/// the action's service, or why it could not be had.
pub fn validate_candidate_resource(
    action: &str,
    resource: &str,
    fetched: Result<ServiceReference, String>,
) -> (r: Result<ResourceValidation, String>)
    ensures
        outcome(r) == candidate_validation(action@, resource@, outcome(fetched)),
{
    let mut validator = ResourceValidator::new();
    match validator.validate(action, resource) {
        ValidationStep::Done(result) => result,
        ValidationStep::NeedReference(service) => {
            validator.provide(service.as_str(), fetched);
            match validator.validate(action, resource) {
                ValidationStep::Done(result) => result,
                ValidationStep::NeedReference(_) => vstd::pervasive::unreached(),
            }
        },
    }
}

/// The types of resource that an action works on are told in order, each once.
pub proof fn law_resource_types_are_sorted(
    reference: ReferenceView,
    action_name: Seq<char>,
    resource: Seq<char>,
)
    ensures
        validated(reference, action_name, resource) matches Ok(validation) ==> (action_named(
            reference.actions,
            action_name,
        ) matches Some(action) && is_ordering_of(validation.resource_types, action.resources)),
{
    if let Some(action) = action_named(reference.actions, action_name) {
        lemma_ordered(action.resources);
    }
}

/// The actions of a service are told in order, each once: those that the reference
/// lists, and at least one.
pub proof fn law_service_actions_are_sorted(
    service: Seq<char>,
    fetched: Result<ReferenceView, Seq<char>>,
)
    ensures
        service_actions(service, fetched) matches Ok(actions) ==> {
            &&& actions.len() > 0
            &&& is_ordering_of(actions, listed_actions(fetched->Ok_0, ascii_lower(service)))
        },
{
    if let Ok(actions) = service_actions(service, fetched) {
        let listed = listed_actions(fetched->Ok_0, ascii_lower(service));
        lemma_ordered(listed);
        assert(listed.contains(listed[0]));
        assert(actions.contains(listed[0]));
    }
}

proof fn lemma_action_named(actions: Seq<ActionView>, name: Seq<char>)
    ensures
        match action_named(actions, name) {
            Some(action) => exists|k: int|
                0 <= k < actions.len() && action == #[trigger] actions[k] && same_ignoring_case(
                    actions[k].name,
                    name,
                ) && forall|j: int|
                    0 <= j < k ==> !same_ignoring_case((#[trigger] actions[j]).name, name),
            None => forall|j: int|
                0 <= j < actions.len() ==> !same_ignoring_case((#[trigger] actions[j]).name, name),
        },
    decreases actions.len(),
{
    if actions.len() > 0 {
        if same_ignoring_case(actions[0].name, name) {
            assert(actions[0] == actions[0]);
        } else {
            let rest = actions.skip(1);
            lemma_action_named(rest, name);
            assert(forall|j: int| 0 < j < actions.len() ==> actions[j] == rest[j - 1]);
            if let Some(action) = action_named(rest, name) {
                let k = choose|k: int|
                    0 <= k < rest.len() && action == #[trigger] rest[k] && same_ignoring_case(
                        rest[k].name,
                        name,
                    ) && forall|j: int|
                        0 <= j < k ==> !same_ignoring_case((#[trigger] rest[j]).name, name);
                assert(action == actions[k + 1]);
                assert forall|j: int| 0 <= j < k + 1 implies !same_ignoring_case(
                    (#[trigger] actions[j]).name,
                    name,
                ) by {
                    if j > 0 {
                        assert(!same_ignoring_case(rest[j - 1].name, name));
                    }
                }
            } else {
                assert forall|j: int| 0 <= j < actions.len() implies !same_ignoring_case(
                    (#[trigger] actions[j]).name,
                    name,
                ) by {
                    if j > 0 {
                        assert(!same_ignoring_case(rest[j - 1].name, name));
                    }
                }
            }
        }
    }
}

/// An action is judged by the first entry of its name in the reference, in any case,
/// and refused where there is none.
pub proof fn law_actions_are_found_by_name(
    reference: ReferenceView,
    action_name: Seq<char>,
    resource: Seq<char>,
)
    ensures
        validated(reference, action_name, resource) is Err <==> forall|j: int|
            0 <= j < reference.actions.len() ==> !same_ignoring_case(
                (#[trigger] reference.actions[j]).name,
                action_name,
            ),
        forall|k: int|
            0 <= k < reference.actions.len() && same_ignoring_case(
                (#[trigger] reference.actions[k]).name,
                action_name,
            ) && (forall|j: int|
                0 <= j < k ==> !same_ignoring_case(
                    (#[trigger] reference.actions[j]).name,
                    action_name,
                )) ==> action_named(reference.actions, action_name) == Some(reference.actions[k]),
{
    let actions = reference.actions;
    lemma_action_named(actions, action_name);
    assert forall|k: int|
        0 <= k < actions.len() && same_ignoring_case((#[trigger] actions[k]).name, action_name) && (
        forall|j: int|
            0 <= j < k ==> !same_ignoring_case((#[trigger] actions[j]).name, action_name)) implies
        action_named(actions, action_name) == Some(actions[k]) by {
        let action = action_named(actions, action_name).unwrap();
        let m = choose|m: int|
            0 <= m < actions.len() && action == #[trigger] actions[m] && same_ignoring_case(
                actions[m].name,
                action_name,
            ) && forall|j: int|
                0 <= j < m ==> !same_ignoring_case((#[trigger] actions[j]).name, action_name);
        if m < k {
            assert(!same_ignoring_case(actions[m].name, action_name));
        }
        if k < m {
            assert(!same_ignoring_case(actions[k].name, action_name));
        }
    }
}

/// A resource has the format at a position among those of the type of resource at
/// another.
pub open spec fn has_format_at(
    reference: ReferenceView,
    resource: Seq<char>,
    kind: int,
    format: int,
) -> bool {
    &&& 0 <= kind < reference.resources.len()
    &&& 0 <= format < reference.resources[kind].arn_formats.len()
    &&& matches_template(reference.resources[kind].arn_formats[format], resource)
}

/// A resource is valid beside an action where it has any format of any type of resource
/// that the action works on: at whatever place that type stands in the action's list,
/// in the reference, and the format among those of the type.
pub proof fn law_any_type_of_the_action_fits(
    reference: ReferenceView,
    action_name: Seq<char>,
    resource: Seq<char>,
    listed: int,
    kind: int,
    format: int,
)
    requires
        action_named(reference.actions, action_name) matches Some(action) && 0 <= listed
            < action.resources.len() && has_format_at(reference, resource, kind, format)
            && reference.resources[kind].name == action.resources[listed],
    ensures
        validated(reference, action_name, resource) matches Ok(validation) && validation.valid,
{
    let action = action_named(reference.actions, action_name).unwrap();
    assert(has_form(reference.resources[kind], resource)) by {
        assert(matches_template(reference.resources[kind].arn_formats[format], resource));
    }
    assert(reference.resources[kind].name == action.resources[listed]);
    assert(fits(reference, action.resources, resource));
}

/// Nothing else is valid: a resource other than `*` that is valid beside an action has
/// a format of a type of resource that the action works on.
pub proof fn law_only_types_of_the_action_fit(
    reference: ReferenceView,
    action_name: Seq<char>,
    resource: Seq<char>,
)
    requires
        resource != "*"@,
        validated(reference, action_name, resource) matches Ok(validation) && validation.valid,
    ensures
        action_named(reference.actions, action_name) matches Some(action) && exists|
            listed: int,
            kind: int,
            format: int,
        |
            0 <= listed < action.resources.len() && #[trigger] has_format_at(
                reference,
                resource,
                kind,
                format,
            ) && reference.resources[kind].name == #[trigger] action.resources[listed],
{
    let action = action_named(reference.actions, action_name).unwrap();
    assert(fits(reference, action.resources, resource));
    let (i, j) = choose|i: int, j: int|
        0 <= i < action.resources.len() && 0 <= j < reference.resources.len() && (
        #[trigger] reference.resources[j]).name == #[trigger] action.resources[i] && has_form(
            reference.resources[j],
            resource,
        );
    let formats = reference.resources[j].arn_formats;
    let k = choose|k: int|
        0 <= k < formats.len() && matches_template(#[trigger] formats[k], resource);
    assert(has_format_at(reference, resource, j, k));
}

/// What is said of a resource beside an action tells whether it is valid, and names the
/// types of resource that the action works on, in order.
pub proof fn law_validations_tell_why(action: ActionView, resource: Seq<char>, fit: bool)
    ensures
        ({
            let said = judged(action, resource, fit);
            let kinds = ordered(action.resources);
            let all = resource == "*"@;
            &&& said.valid <==> all || (fit && action.resources.len() > 0)
            &&& said.resource_types == kinds
            &&& action.resources.len() == 0 && all ==> said.detail
                == "AWS lists this action without resource-level permissions; Resource \"*\" is required."@
            &&& action.resources.len() == 0 && !all ==> said.detail
                == "AWS lists this action without resource-level permissions, so the reported ARN cannot scope an Allow; Resource \"*\" is required."@
            &&& action.resources.len() > 0 && all ==> said.detail == "AWS supports resource types "@
                + joined(kinds, ", "@) + "; Resource \"*\" is valid but broad."@
            &&& action.resources.len() > 0 && !all && fit ==> said.detail
                == "The reported resource matches AWS resource type "@ + joined(kinds, " or "@)
                + "."@
            &&& action.resources.len() > 0 && !all && !fit ==> said.detail
                == "The reported resource does not match the AWS resource types supported by this action: "@
                + joined(kinds, ", "@) + ". No candidate policy was generated."@
        }),
{
}

/// A template is read piece by piece: what stands in front of the first placeholder
/// stands for itself, the placeholder for what its name says, and what follows it is
/// read in the same way.
pub proof fn law_templates_are_read_by_placeholder(
    front: Seq<char>,
    name: Seq<char>,
    rest: Seq<char>,
)
    requires
        !occurs_in(front, "${"@),
        !name.contains('}'),
    ensures
        template_pattern(front) == Some(regex_escaped(front)),
        ({
            let meant = if name == "Partition"@ {
                "[^:]+"@
            } else if name == "Region"@ || name == "Account"@ {
                "[^:]*"@
            } else {
                r"[^\s]+"@
            };
            template_pattern(front + "${"@ + name + seq!['}'] + rest) == match template_pattern(rest) {
                Some(pattern) => Some(regex_escaped(front) + meant + pattern),
                None => None,
            }
        }),
        template_pattern(front + "${"@ + name) is None,
{
    reveal_strlit("${");
    lemma_find_from(front, "${"@, 0);
    let opening = "${"@;
    let at = front.len() as int;
    assert forall|tail: Seq<char>| #[trigger]
        find_from(front + opening + tail, opening, 0) == Some(at) by {
        let whole = front + opening + tail;
        lemma_find_from(whole, opening, 0);
        assert(whole.subrange(at, at + 2) =~= opening);
        assert(occurs_at(whole, opening, at));
        let found = find_from(whole, opening, 0).unwrap();
        if found < at {
            assert(whole.subrange(found, found + 2)[1] == whole[found + 1]);
            assert(whole[found + 1] == '{');
            assert(found + 2 <= at);
            assert(front.subrange(found, found + 2) =~= whole.subrange(found, found + 2));
            assert(occurs_at(front, opening, found));
        }
    }
    let tail = name + seq!['}'] + rest;
    let whole = front + opening + name + seq!['}'] + rest;
    assert(whole =~= front + opening + tail);
    assert(whole.skip(at + 2) =~= tail);
    assert(whole.take(at) =~= front);
    assert(tail =~= name.push('}') + rest);
    lemma_split_first_of(name, '}', rest);
    let open = front + opening + name;
    assert(open.skip(at + 2) =~= name);
    law_text_without_it_stays_whole(name, '}');
}

/// A resource has the form that a template gives where the expression for the template
/// matches all of it, from its start to its end.
pub proof fn law_templates_match_whole_resources(template: Seq<char>, resource: Seq<char>)
    ensures
        matches_template(template, resource) <==> exists|pattern: Seq<char>|
            template_pattern(template) == Some(pattern) && #[trigger] regex_matches(
                "^"@ + pattern + "$"@,
                resource,
            ),
{
    if let Some(pattern) = template_pattern(template) {
        if matches_template(template, resource) {
            assert(regex_matches("^"@ + pattern + "$"@, resource));
        }
    }
}

proof fn lemma_entry_for(index: Seq<IndexEntryView>, service: Seq<char>, k: int)
    requires
        0 <= k <= index.len(),
        k < index.len() ==> index[k].service == service,
        forall|j: int| 0 <= j < k ==> (#[trigger] index[j]).service != service,
    ensures
        entry_for(index, service) == if k < index.len() {
            Some(index[k])
        } else {
            None
        },
    decreases k,
{
    if k > 0 {
        assert(index[0].service != service);
        let rest = index.skip(1);
        assert forall|j: int| 0 <= j < k - 1 implies (#[trigger] rest[j]).service != service by {
            assert(rest[j] == index[j + 1]);
        }
        lemma_entry_for(rest, service, k - 1);
    }
}

/// The address of a service's part of the reference is the one of the first entry for
/// just that service, and an address anywhere but at AWS's reference is refused.
pub proof fn law_addresses_stand_at_the_reference(
    index: Seq<IndexEntryView>,
    service: Seq<char>,
    k: int,
)
    requires
        0 <= k <= index.len(),
        k < index.len() ==> index[k].service == service,
        forall|j: int| 0 <= j < k ==> (#[trigger] index[j]).service != service,
    ensures
        url_for(None, service) is Err,
        url_for(Some(index), service) is Ok <==> k < index.len() && begins_with(
            index[k].url,
            "https://servicereference.us-east-1.amazonaws.com/"@,
        ),
        url_for(Some(index), service) matches Ok(url) ==> url == index[k].url,
{
    lemma_entry_for(index, service, k);
}

/// A part of the reference is taken only where it is of the service that was asked for,
/// in any case, and as it came.
pub proof fn law_references_are_of_the_service(found: ReferenceView, service: Seq<char>)
    ensures
        accepted_reference(None, service) is Err,
        accepted_reference(Some(found), service) is Ok <==> same_ignoring_case(found.name, service),
        accepted_reference(Some(found), service) matches Ok(taken) ==> taken == found,
{
}

/// A service can be named in letters, digits and hyphens, at least one of them, and is
/// meant in lower case.
pub proof fn law_services_are_named_in_letters(service: Seq<char>)
    ensures
        normalized_service(service) is Ok <==> service.len() > 0 && forall|i: int|
            0 <= i < service.len() ==> {
                let c = #[trigger] service[i];
                'a' <= c <= 'z' || 'A' <= c <= 'Z' || '0' <= c <= '9' || c == '-'
            },
        normalized_service(service) matches Ok(name) ==> name == ascii_lower(service),
{
    let lower = ascii_lower(service);
    assert(lower.len() == service.len());
    assert forall|i: int| 0 <= i < service.len() implies ({
        let c = #[trigger] service[i];
        'a' <= c <= 'z' || 'A' <= c <= 'Z' || '0' <= c <= '9' || c == '-'
    }) == (is_ascii_lower(lower[i]) || is_ascii_digit(lower[i]) || lower[i] == '-') by {
        law_lower_case_changes_capitals_alone(service, i);
    }
    if is_service_name(lower) {
        assert forall|i: int| 0 <= i < service.len() implies {
            let c = #[trigger] service[i];
            'a' <= c <= 'z' || 'A' <= c <= 'Z' || '0' <= c <= '9' || c == '-'
        } by {
            assert(is_ascii_lower(lower[i]) || is_ascii_digit(lower[i]) || lower[i] == '-');
        }
    }
    if service.len() > 0 && forall|i: int|
        0 <= i < service.len() ==> {
            let c = #[trigger] service[i];
            'a' <= c <= 'z' || 'A' <= c <= 'Z' || '0' <= c <= '9' || c == '-'
        } {
        assert forall|i: int| 0 <= i < lower.len() implies is_ascii_lower(#[trigger] lower[i])
            || is_ascii_digit(lower[i]) || lower[i] == '-' by {
            let c = service[i];
            assert('a' <= c <= 'z' || 'A' <= c <= 'Z' || '0' <= c <= '9' || c == '-');
        }
    }
}

/// A name of an action: at least one letter, digit or hyphen, and nothing else.
pub open spec fn is_plain_name(name: Seq<char>) -> bool {
    name.len() > 0 && forall|i: int|
        0 <= i < name.len() ==> {
            let c = #[trigger] name[i];
            'a' <= c <= 'z' || 'A' <= c <= 'Z' || '0' <= c <= '9' || c == '-'
        }
}

/// An action with a service in front of it is that service's, in lower case, and its
/// name keeps its case; it is refused where a service was asked for and is another. An
/// action without one is the service's that was asked for, and refused without one.
pub proof fn law_actions_belong_to_services(
    prefix: Seq<char>,
    name: Seq<char>,
    expected: Option<Seq<char>>,
)
    requires
        !prefix.contains(':'),
        !name.contains(':'),
    ensures
        ({
            let full = normalized_action(prefix + seq![':'] + name, expected);
            let alone = normalized_action(name, expected);
            let service = normalized_service(prefix);
            &&& full is Ok <==> service is Ok && is_plain_name(name) && (expected matches Some(
                wanted,
            ) ==> service == Ok::<Seq<char>, Seq<char>>(wanted))
            &&& full matches Ok(action) ==> action == ascii_lower(prefix) + seq![':'] + name
            &&& alone is Ok <==> expected is Some && is_plain_name(name)
            &&& alone matches Ok(action) ==> action == expected.unwrap() + seq![':'] + name
        }),
{
    reveal_strlit(":");
    assert(":"@ =~= seq![':']);
    assert(prefix + seq![':'] + name =~= prefix.push(':') + name);
    lemma_split_first_of(prefix, ':', name);
    law_text_without_it_stays_whole(name, ':');
    law_services_are_named_in_letters(prefix);
    assert(is_plain_name(name) == is_action_name(name)) by {
        if is_action_name(name) {
            assert forall|i: int| 0 <= i < name.len() implies {
                let c = #[trigger] name[i];
                'a' <= c <= 'z' || 'A' <= c <= 'Z' || '0' <= c <= '9' || c == '-'
            } by {
                assert(is_ascii_alphanumeric(name[i]) || name[i] == '-');
            }
        }
        if is_plain_name(name) {
            assert forall|i: int| 0 <= i < name.len() implies is_ascii_alphanumeric(
                #[trigger] name[i],
            ) || name[i] == '-' by {
                let c = name[i];
                assert('a' <= c <= 'z' || 'A' <= c <= 'Z' || '0' <= c <= '9' || c == '-');
            }
        }
    }
}

/// Where no resource is named, all are meant. Up to twenty-five can be named, each of
/// at least one character and of at most 2048 bytes, and none with a control character;
/// they are taken as they are named.
pub proof fn law_resources_are_taken_as_named(named: Seq<Seq<char>>)
    ensures
        normalized_resources(Seq::empty()) == Ok::<Seq<Seq<char>>, Seq<char>>(seq!["*"@]),
        named.len() > 0 ==> (normalized_resources(named) is Ok <==> named.len() <= 25 && forall|
            i: int,
        |
            0 <= i < named.len() ==> {
                let resource = #[trigger] named[i];
                &&& resource.len() > 0
                &&& encode_utf8(resource).len() <= 2048
                &&& forall|k: int|
                    0 <= k < resource.len() ==> !is_control_char(#[trigger] resource[k])
            }),
        named.len() > 0 ==> (normalized_resources(named) matches Ok(list) ==> list == named),
{
    reveal_strlit("*");
    let star = "*"@;
    assert(star.len() == 1 && star[0] == '*');
    assert(encode_utf8(star).len() <= 2048) by {
        reveal_with_fuel(encode_utf8, 2);
    }
    assert(is_resource(star));
    assert(seq![star][0] == star);
    assert(all_resources(seq![star]));
    if named.len() > 0 && named.len() <= 25 && forall|i: int|
        0 <= i < named.len() ==> {
            let resource = #[trigger] named[i];
            &&& resource.len() > 0
            &&& encode_utf8(resource).len() <= 2048
            &&& forall|k: int| 0 <= k < resource.len() ==> !is_control_char(#[trigger] resource[k])
        } {
        assert(all_resources(named));
    }
    if named.len() > 0 && normalized_resources(named) is Ok {
        assert forall|i: int| 0 <= i < named.len() implies {
            let resource = #[trigger] named[i];
            &&& resource.len() > 0
            &&& encode_utf8(resource).len() <= 2048
            &&& forall|k: int| 0 <= k < resource.len() ==> !is_control_char(#[trigger] resource[k])
        } by {
            assert(is_resource(named[i]));
        }
    }
}

/// Every action that the reference lists is told with the service in front of it.
pub proof fn law_listed_actions_name_their_service(
    reference: ReferenceView,
    service: Seq<char>,
    i: int,
)
    requires
        0 <= i < reference.actions.len(),
    ensures
        listed_actions(reference, service).len() == reference.actions.len(),
        listed_actions(reference, service)[i] == service + ":"@ + reference.actions[i].name,
        service_actions(service, Ok(reference)) is Ok <==> normalized_service(service) is Ok,
        service_actions(service, Ok(reference)) matches Ok(actions) ==> actions.contains(
            ascii_lower(service) + ":"@ + reference.actions[i].name,
        ),
{
    let all = listed_actions(reference, ascii_lower(service));
    lemma_ordered(all);
    assert(all.contains(all[i]));
}

/// The resource of a candidate policy is judged by the reference of its action's
/// service, once that is known; an action that is none is not looked up, and where the
/// reference could not be had, that is told.
pub proof fn law_resources_are_judged_by_their_service(
    known: Map<Seq<char>, Result<ReferenceView, Seq<char>>>,
    service: Seq<char>,
    name: Seq<char>,
    resource: Seq<char>,
    fetched: Result<ReferenceView, Seq<char>>,
)
    requires
        normalized_service(service) == Ok::<Seq<char>, Seq<char>>(service),
        is_plain_name(name),
        !service.contains(':'),
        !name.contains(':'),
    ensures
        ({
            let step = validation_step(known, service + seq![':'] + name, resource);
            &&& !known.contains_key(service) ==> step == ValidationStepView::NeedReference(service)
            &&& known.contains_key(service) ==> match known[service] {
                Ok(reference) => step == ValidationStepView::Done(
                    validated(reference, name, resource),
                ),
                Err(error) => step == ValidationStepView::Done(Err(error)),
            }
        }),
        candidate_validation(service + seq![':'] + name, resource, fetched) == match fetched {
            Ok(reference) => validated(reference, name, resource),
            Err(error) => Err(error),
        },
{
    law_actions_belong_to_services(service, name, None);
    assert(service + seq![':'] + name =~= service.push(':') + name);
    lemma_split_first_of(service, ':', name);
}

} // verus!
