//! What arguments the tool takes, told in the terms of JSON Schema.

use crate::args::ArgsView;
use crate::base_url::verdict;
use crate::error::SearchError;
use crate::request::planned;
use crate::request::SearchRequest;
use crate::text::nonblank;
use crate::text::str_views;
use crate::tool::clamped_results;
use crate::tool::SearxngSearchTool;
use crate::tool::ToolSettings;
use crate::tool::MAX_RESULTS;
use crate::tool::MIN_RESULTS;
use vstd::prelude::*;

verus! {

/// A parameter, as mathematical values.
pub struct ParameterView {
    pub name: Seq<char>,
    pub kind: Seq<char>,
    pub description: Seq<char>,
    pub minimum: Option<usize>,
    pub maximum: Option<usize>,
}

/// A parameter of the tool.
#[derive(Debug, Clone, Copy)]
pub struct Parameter {
    pub name: &'static str,
    /// The JSON type of its values.
    pub kind: &'static str,
    pub description: &'static str,
    pub minimum: Option<usize>,
    pub maximum: Option<usize>,
}

impl View for Parameter {
    type V = ParameterView;

    open spec fn view(&self) -> ParameterView {
        ParameterView {
            name: self.name@,
            kind: self.kind@,
            description: self.description@,
            minimum: self.minimum,
            maximum: self.maximum,
        }
    }
}

/// The arguments of the tool: a JSON object with these members.
#[derive(Debug)]
pub struct ParametersSchema {
    /// The JSON type of the arguments as a whole.
    pub kind: &'static str,
    pub properties: Vec<Parameter>,
    /// The names of the members that may not be absent.
    pub required: Vec<&'static str>,
}

/// The views of parameters.
pub open spec fn parameter_views(parameters: Seq<Parameter>) -> Seq<ParameterView> {
    Seq::new(parameters.len(), |i: int| parameters[i]@)
}

/// A parameter whose values are strings.
pub open spec fn string_parameter(name: Seq<char>, description: Seq<char>) -> ParameterView {
    ParameterView { name, kind: "string"@, description, minimum: None, maximum: None }
}

/// The parameter that limits the number of results.
pub open spec fn limit_parameter() -> ParameterView {
    ParameterView {
        name: "max_results"@,
        kind: "integer"@,
        description: "Maximum results to return (1-50). Defaults to config value."@,
        minimum: Some(MIN_RESULTS),
        maximum: Some(MAX_RESULTS),
    }
}

/// The parameters of the tool.
pub open spec fn parameters() -> Seq<ParameterView> {
    seq![
        string_parameter("query"@, "The search query. Be specific for better results."@),
        string_parameter(
            "categories"@,
            "Comma-separated SearXNG categories. Valid values: general, news, images, videos, science, social_media, files. Defaults to config value."@,
        ),
        string_parameter(
            "language"@,
            "Language code for results, e.g. \"en\", \"de\". Defaults to config value."@,
        ),
        limit_parameter(),
    ]
}

/// The names of the parameters that may not be absent.
pub open spec fn required_parameters() -> Seq<Seq<char>> {
    seq!["query"@]
}

/// A parameter whose values are strings.
fn string_param(name: &'static str, description: &'static str) -> (r: Parameter)
    ensures
        r@ == string_parameter(name@, description@),
{
    Parameter { name, kind: "string", description, minimum: None, maximum: None }
}

impl SearxngSearchTool {
    /// What arguments the tool takes.
    pub fn parameters_schema(&self) -> (r: ParametersSchema)
        ensures
            r.kind@ == "object"@,
            parameter_views(r.properties@) == parameters(),
            str_views(r.required@) == required_parameters(),
    {
        let mut properties: Vec<Parameter> = Vec::new();
        properties.push(
            string_param("query", "The search query. Be specific for better results."),
        );
        properties.push(
            string_param(
                "categories",
                "Comma-separated SearXNG categories. Valid values: general, news, images, videos, science, social_media, files. Defaults to config value.",
            ),
        );
        properties.push(
            string_param(
                "language",
                "Language code for results, e.g. \"en\", \"de\". Defaults to config value.",
            ),
        );
        properties.push(
            Parameter {
                name: "max_results",
                kind: "integer",
                description: "Maximum results to return (1-50). Defaults to config value.",
                minimum: Some(MIN_RESULTS),
                maximum: Some(MAX_RESULTS),
            },
        );
        let mut required: Vec<&'static str> = Vec::new();
        required.push("query");
        assert(parameter_views(properties@) =~= parameters());
        assert(str_views(required@) =~= required_parameters());
        ParametersSchema { kind: "object", properties, required }
    }
}

// ---------------------------------------------------------------------------
// Laws
// ---------------------------------------------------------------------------

/// The bounds that the schema tells are the bounds that are kept: a number of results is taken as
/// it is exactly where it lies within them.
pub proof fn law_schema_bounds_are_kept(n: usize)
    ensures
        parameters().contains(limit_parameter()),
        limit_parameter().minimum matches Some(low) && limit_parameter().maximum matches Some(high)
            && low <= clamped_results(n) <= high && (clamped_results(n) == n <==> low <= n <= high),
{
    assert(parameters()[3] == limit_parameter());
}

/// The query is the one argument that may not be absent: with an accepted base URL, a call that
/// has a query that is not blank and nothing else is not refused, and one that lacks it is.
pub proof fn law_only_the_query_is_required(
    settings: ToolSettings,
    args: ArgsView,
    r: Result<SearchRequest, SearchError>,
)
    requires
        verdict(settings.base_url) is Ok,
        planned(settings, args, r),
    ensures
        required_parameters() == seq!["query"@],
        args.query is None ==> r is Err,
        nonblank(args.query) is Some ==> r is Ok,
{
}

/// The parameters that the tool tells, by name and type, and the range of the last one.
pub proof fn law_parameters()
    ensures
        parameters().len() == 4,
        parameters()[0].name == "query"@ && parameters()[0].kind == "string"@,
        parameters()[1].name == "categories"@ && parameters()[1].kind == "string"@,
        parameters()[2].name == "language"@ && parameters()[2].kind == "string"@,
        parameters()[3].name == "max_results"@ && parameters()[3].kind == "integer"@,
        parameters()[3].minimum == Some(1usize) && parameters()[3].maximum == Some(50usize),
        forall|i: int|
            0 <= i < 3 ==> (#[trigger] parameters()[i]).minimum is None
                && parameters()[i].maximum is None,
{
}

} // verus!
