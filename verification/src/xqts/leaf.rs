use vstd::prelude::*;
use crate::xqts::text::{replace_all, spec_replace, utf8_bytes};
use crate::xqts::codegen::{
    build_prefix, check_result, check_result_value, cleanup, fn_name, spec_build_prefix,
    spec_check_end, spec_check_result, spec_check_result_value, spec_cleanup, spec_fn_name,
    string_cleanup,
};
use crate::xqts::model::{
    eq_lit, opt_env_view, opt_view, text_cleanup, Environment, EnvironmentView,
    Namespace, Source, XmlEvent, XmlEventView, TagEnd,
};

verus! {

/// Whether a token ends an element, whatever the kind of end.
pub open spec fn is_end(t: XmlEventView) -> bool {
    t is Open || t is Close || t is Empty
}

// ---------------------------------------------------------------- namespace

/// Reads a `<namespace prefix=".." uri=".."/>` element.
pub struct NamespaceState {
    pub prefix: Option<String>,
    pub uri: Option<String>,
}

pub struct NamespaceStateView {
    pub prefix: Option<Seq<char>>,
    pub uri: Option<Seq<char>>,
}

impl View for NamespaceState {
    type V = NamespaceStateView;

    open spec fn view(&self) -> NamespaceStateView {
        NamespaceStateView { prefix: opt_view(self.prefix), uri: opt_view(self.uri) }
    }
}

/// The state after a token, and whether the element is done.
pub open spec fn namespace_step(s: NamespaceStateView, t: XmlEventView) -> (NamespaceStateView, bool) {
    match t {
        XmlEventView::Attribute(local, value) => if local == "prefix"@ {
            (NamespaceStateView { prefix: Some(value), ..s }, false)
        } else if local == "uri"@ {
            (NamespaceStateView { uri: Some(value), ..s }, false)
        } else {
            (s, false)
        },
        XmlEventView::Open | XmlEventView::Close(_) | XmlEventView::Empty => (s, true),
        _ => (s, false),
    }
}

/// The namespace read, once both attributes are known.
pub open spec fn namespace_data(s: NamespaceStateView) -> Option<(Seq<char>, Seq<char>)> {
    match (s.prefix, s.uri) {
        (Some(p), Some(u)) => Some((p, u)),
        _ => None,
    }
}

impl NamespaceState {
    pub fn empty() -> (r: NamespaceState)
        ensures
            r@ == (NamespaceStateView { prefix: None, uri: None }),
    {
        NamespaceState { prefix: None, uri: None }
    }

    pub fn to_data(&self) -> (r: Option<Namespace>)
        ensures
            match r {
                Some(n) => namespace_data(self@) == Some(n@),
                None => namespace_data(self@) is None,
            },
    {
        if let Some(prefix) = &self.prefix {
            if let Some(uri) = &self.uri {
                return Some(Namespace { prefix: prefix.clone(), uri: uri.clone() });
            }
        }
        None
    }

    pub fn event(&mut self, token: &XmlEvent, generated: &mut String) -> (r: bool)
        ensures
            (final(self)@, r) == namespace_step(old(self)@, token@),
            final(generated)@ == old(generated)@,
    {
        match token {
            XmlEvent::Attribute { local, value } => {
                if eq_lit(local, "prefix") {
                    self.prefix = Some(value.clone());
                } else if eq_lit(local, "uri") {
                    self.uri = Some(value.clone());
                }
                false
            },
            XmlEvent::TagEnd(_) => true,
            _ => false,
        }
    }
}

// ---------------------------------------------------------------- source

/// Reads a `<source role=".." file=".."/>` element.
pub struct SourceState {
    pub role: Option<String>,
    pub file: Option<String>,
}

pub struct SourceStateView {
    pub role: Option<Seq<char>>,
    pub file: Option<Seq<char>>,
}

impl View for SourceState {
    type V = SourceStateView;

    open spec fn view(&self) -> SourceStateView {
        SourceStateView { role: opt_view(self.role), file: opt_view(self.file) }
    }
}

/// A source element holds attributes and ends; anything else in it is
/// refused.
pub open spec fn source_accepts(t: XmlEventView) -> bool {
    t is Attribute || is_end(t)
}

pub open spec fn source_step(s: SourceStateView, t: XmlEventView) -> (SourceStateView, bool) {
    match t {
        XmlEventView::Attribute(local, value) => if local == "role"@ {
            (SourceStateView { role: Some(value), ..s }, false)
        } else if local == "file"@ {
            (SourceStateView { file: Some(value), ..s }, false)
        } else {
            (s, false)
        },
        _ => (s, true),
    }
}

pub open spec fn source_data(s: SourceStateView) -> Option<(Seq<char>, Seq<char>)> {
    match (s.role, s.file) {
        (Some(r), Some(f)) => Some((r, f)),
        _ => None,
    }
}

impl SourceState {
    pub fn empty() -> (r: SourceState)
        ensures
            r@ == (SourceStateView { role: None, file: None }),
    {
        SourceState { role: None, file: None }
    }

    pub fn to_data(&self) -> (r: Option<Source>)
        ensures
            match r {
                Some(s) => source_data(self@) == Some(s@),
                None => source_data(self@) is None,
            },
    {
        if let Some(role) = &self.role {
            if let Some(file) = &self.file {
                return Some(Source { role: role.clone(), file: file.clone() });
            }
        }
        None
    }

    pub fn event(&mut self, token: &XmlEvent, generated: &mut String) -> (r: bool)
        requires
            source_accepts(token@),
        ensures
            (final(self)@, r) == source_step(old(self)@, token@),
            final(generated)@ == old(generated)@,
    {
        match token {
            XmlEvent::Attribute { local, value } => {
                if eq_lit(local, "role") {
                    self.role = Some(value.clone());
                } else if eq_lit(local, "file") {
                    self.file = Some(value.clone());
                }
                false
            },
            _ => true,
        }
    }
}

// ---------------------------------------------------------------- dependency

/// Reads a `<dependency type=".." value=".."/>` element.
pub struct DependencyState {
    pub t: Option<String>,
    pub v: Option<String>,
}

pub struct DependencyStateView {
    pub t: Option<Seq<char>>,
    pub v: Option<Seq<char>>,
}

impl View for DependencyState {
    type V = DependencyStateView;

    open spec fn view(&self) -> DependencyStateView {
        DependencyStateView { t: opt_view(self.t), v: opt_view(self.v) }
    }
}

pub open spec fn dependency_step(s: DependencyStateView, t: XmlEventView) -> (DependencyStateView, bool) {
    match t {
        XmlEventView::Attribute(local, value) => if local == "type"@ {
            (DependencyStateView { t: Some(value), ..s }, false)
        } else if local == "value"@ {
            (DependencyStateView { v: Some(value), ..s }, false)
        } else {
            (s, false)
        },
        _ => (s, true),
    }
}

impl DependencyState {
    pub fn empty() -> (r: DependencyState)
        ensures
            r@ == (DependencyStateView { t: None, v: None }),
    {
        DependencyState { t: None, v: None }
    }

    pub fn event(&mut self, token: &XmlEvent, generated: &mut String) -> (r: bool)
        requires
            source_accepts(token@),
        ensures
            (final(self)@, r) == dependency_step(old(self)@, token@),
            final(generated)@ == old(generated)@,
    {
        match token {
            XmlEvent::Attribute { local, value } => {
                if eq_lit(local, "type") {
                    self.t = Some(value.clone());
                } else if eq_lit(local, "value") {
                    self.v = Some(value.clone());
                }
                false
            },
            _ => true,
        }
    }
}

// ---------------------------------------------------------------- error

/// Reads an expected error, `<error code=".."/>`, and emits its check.
pub struct ErrorState {
    pub any_of_flag: bool,
    pub code: Option<String>,
}

pub struct ErrorStateView {
    pub any_of_flag: bool,
    pub code: Option<Seq<char>>,
}

impl View for ErrorState {
    type V = ErrorStateView;

    open spec fn view(&self) -> ErrorStateView {
        ErrorStateView { any_of_flag: self.any_of_flag, code: opt_view(self.code) }
    }
}

/// An error element holds attributes and ends empty, once its code is known.
pub open spec fn error_accepts(s: ErrorStateView, t: XmlEventView) -> bool {
    t is Attribute || (t is Empty && s.code is Some)
}

/// The check emitted for an expected error.
pub open spec fn spec_check_error(s: ErrorStateView) -> Seq<char> {
    spec_build_prefix(s.any_of_flag) + "check_error(&result, \""@ + s.code->0 + "\")"@
        + spec_check_end(s.any_of_flag)
}

/// The state after a token, whether the element is done, and the text
/// emitted.
pub open spec fn error_step(s: ErrorStateView, t: XmlEventView) -> (ErrorStateView, bool, Seq<char>) {
    match t {
        XmlEventView::Attribute(local, value) => if local == "code"@ {
            (ErrorStateView { code: Some(value), ..s }, false, seq![])
        } else {
            (s, false, seq![])
        },
        _ => (s, true, spec_check_error(s)),
    }
}

impl ErrorState {
    pub fn empty(any_of_flag: bool) -> (r: ErrorState)
        ensures
            r@ == (ErrorStateView { any_of_flag, code: None }),
    {
        ErrorState { any_of_flag, code: None }
    }

    pub fn event(&mut self, token: &XmlEvent, generated: &mut String) -> (r: bool)
        requires
            error_accepts(old(self)@, token@),
        ensures
            final(self)@ == error_step(old(self)@, token@).0,
            r == error_step(old(self)@, token@).1,
            final(generated)@ == old(generated)@ + error_step(old(self)@, token@).2,
    {
        let ghost start = generated@;
        match token {
            XmlEvent::Attribute { local, value } => {
                if eq_lit(local, "code") {
                    self.code = Some(value.clone());
                }
                assert(generated@ =~= start + seq![]);
                false
            },
            _ => {
                generated.append(build_prefix(self.any_of_flag).as_str());
                generated.append("check_error(&result, \"");
                match &self.code {
                    Some(code) => generated.append(code.as_str()),
                    None => {},
                }
                generated.append("\")");
                if !self.any_of_flag {
                    generated.append(";");
                }
                generated.append("\n");
                assert(generated@ =~= start + spec_check_error(old(self)@));
                true
            },
        }
    }
}

// ---------------------------------------------------------------- assert

/// Reads an assertion on the result (`<assert-eq>..</assert-eq>` and the
/// like) and emits its check.
pub struct AssertState {
    pub open_tag: String,
    pub fn_name: String,
    pub have_value: bool,
    pub any_of_flag: bool,
    pub assert: String,
}

pub struct AssertStateView {
    pub open_tag: Seq<char>,
    pub fn_name: Seq<char>,
    pub have_value: bool,
    pub any_of_flag: bool,
    pub assert: Seq<char>,
}

impl View for AssertState {
    type V = AssertStateView;

    open spec fn view(&self) -> AssertStateView {
        AssertStateView {
            open_tag: self.open_tag@,
            fn_name: self.fn_name@,
            have_value: self.have_value,
            any_of_flag: self.any_of_flag,
            assert: self.assert@,
        }
    }
}

/// The name of the check function for an assertion element.
pub open spec fn spec_assert_fn_name(open_tag: Seq<char>) -> Seq<char> {
    "check_"@ + spec_replace(open_tag, "-"@, "_"@)
}

/// An assertion element holds attributes, text and ends; the closing tag of
/// an assertion without a value, and any other token, are refused.
pub open spec fn assert_accepts(s: AssertStateView, t: XmlEventView) -> bool {
    match t {
        XmlEventView::Attribute(_, _) | XmlEventView::Cdata(_) | XmlEventView::Open | XmlEventView::Empty => true,
        XmlEventView::Text(x) => text_cleanup(x) is Some,
        XmlEventView::Close(local) => local == s.open_tag ==> s.have_value,
        _ => false,
    }
}

/// The check emitted when the assertion element ends.
pub open spec fn spec_assert_check(s: AssertStateView) -> Seq<char> {
    if s.have_value {
        spec_check_result_value(s.fn_name, s.assert, s.any_of_flag)
    } else {
        spec_check_result(s.fn_name, s.any_of_flag)
    }
}

pub open spec fn assert_step(s: AssertStateView, t: XmlEventView) -> (AssertStateView, bool, Seq<char>) {
    match t {
        XmlEventView::Text(x) => (AssertStateView { assert: s.assert + text_cleanup(x)->0, ..s }, false, seq![]),
        XmlEventView::Cdata(x) => (AssertStateView { assert: s.assert + x, ..s }, false, seq![]),
        XmlEventView::Empty => (s, true, spec_assert_check(s)),
        XmlEventView::Close(local) => if local == s.open_tag {
            (s, true, spec_assert_check(s))
        } else {
            (s, false, seq![])
        },
        _ => (s, false, seq![]),
    }
}

impl AssertState {
    pub fn empty(open_tag: String, have_value: bool, any_of_flag: bool) -> (r: AssertState)
        ensures
            r@ == (AssertStateView {
                open_tag: open_tag@,
                fn_name: spec_assert_fn_name(open_tag@),
                have_value,
                any_of_flag,
                assert: seq![],
            }),
    {
        proof {
            reveal_strlit("-");
        }
        let mut name = String::from_str("check_");
        name.append(replace_all(open_tag.as_str(), "-", "_").as_str());
        AssertState { open_tag, fn_name: name, have_value, any_of_flag, assert: String::new() }
    }

    fn emit_check(&self, generated: &mut String)
        ensures
            final(generated)@ == old(generated)@ + spec_assert_check(self@),
    {
        if self.have_value {
            let code = check_result_value(self.fn_name.clone(), self.assert.clone(), self.any_of_flag);
            generated.append(code.as_str());
        } else {
            let code = check_result(self.fn_name.clone(), self.any_of_flag);
            generated.append(code.as_str());
        }
    }

    pub fn event(&mut self, token: &XmlEvent, generated: &mut String) -> (r: bool)
        requires
            assert_accepts(old(self)@, token@),
        ensures
            final(self)@ == assert_step(old(self)@, token@).0,
            r == assert_step(old(self)@, token@).1,
            final(generated)@ == old(generated)@ + assert_step(old(self)@, token@).2,
    {
        let ghost start = generated@;
        assert(start =~= start + seq![]);
        match token {
            XmlEvent::Attribute { .. } => false,
            XmlEvent::Text(text) => {
                let bytes = utf8_bytes(text.as_str());
                let data = string_cleanup(bytes.as_slice()).unwrap();
                self.assert.append(data.as_str());
                false
            },
            XmlEvent::Cdata(text) => {
                self.assert.append(text.as_str());
                false
            },
            XmlEvent::TagEnd(TagEnd::Open) => false,
            XmlEvent::TagEnd(TagEnd::Empty) => {
                self.emit_check(generated);
                true
            },
            XmlEvent::TagEnd(TagEnd::Close(local)) => {
                if eq_lit(local, self.open_tag.as_str()) {
                    self.emit_check(generated);
                    true
                } else {
                    false
                }
            },
            _ => false,
        }
    }
}

// ---------------------------------------------------------------- test

/// Reads a `<test>` element, either a query text or a reference to a query
/// file, and emits the head of the generated test function.
pub struct TestState {
    pub test_name: String,
    pub spec: Option<String>,
    pub env: Option<Environment>,
    pub dir: String,
    pub file: Option<String>,
    pub script: String,
}

pub struct TestStateView {
    pub test_name: Seq<char>,
    pub spec: Option<Seq<char>>,
    pub env: Option<EnvironmentView>,
    pub dir: Seq<char>,
    pub file: Option<Seq<char>>,
    pub script: Seq<char>,
}

impl View for TestState {
    type V = TestStateView;

    open spec fn view(&self) -> TestStateView {
        TestStateView {
            test_name: self.test_name@,
            spec: opt_view(self.spec),
            env: opt_env_view(self.env),
            dir: self.dir@,
            file: opt_view(self.file),
            script: self.script@,
        }
    }
}

/// One line that registers a source document of the environment.
pub open spec fn spec_source_line(source: (Seq<char>, Seq<char>), path: Seq<char>) -> Seq<char> {
    "        sources.push((\""@ + source.0 + "\",\""@ + path + source.1 + "\"));\n"@
}

pub open spec fn spec_source_lines(sources: Seq<(Seq<char>, Seq<char>)>, path: Seq<char>) -> Seq<char>
    decreases sources.len(),
{
    if sources.len() == 0 {
        seq![]
    } else {
        spec_source_lines(sources.drop_last(), path) + spec_source_line(sources.last(), path)
    }
}

/// The declaration of the sources of the generated test.
pub open spec fn spec_sources_block(env: Option<EnvironmentView>) -> Seq<char> {
    match env {
        Some(e) => if e.sources.len() != 0 {
            "        let mut sources: Vec<(&str,&str)> = vec![];\n"@ + spec_source_lines(e.sources, e.path)
        } else {
            "        let sources: Vec<(&str,&str)> = vec![];\n"@
        },
        None => "        let sources: Vec<(&str,&str)> = vec![];\n"@,
    }
}

/// The head of the generated test function.
pub open spec fn spec_generate_head(t: TestStateView) -> Seq<char> {
    "    #[test]\n    fn "@ + spec_fn_name(t.test_name) + "() {\n"@ + spec_sources_block(t.env)
}

/// The generated test for a query read from a file.
pub open spec fn spec_generate_file(t: TestStateView, file: Seq<char>) -> Seq<char> {
    spec_generate_head(t) + (if t.test_name == "K-Literals-29"@ {
        "        let script = String::new();\n"@
    } else {
        "        let script = fs::read_to_string(\"./qt3tests/"@ + t.dir + file + "\").unwrap();\n"@
    }) + "        let result = eval(sources, script.as_str());\n"@
}

/// The generated test for a query given in line.
pub open spec fn spec_generate_script(t: TestStateView, script: Seq<char>) -> Seq<char> {
    spec_generate_head(t) + (match t.spec {
        Some(spec) => "        let result = eval_on_spec(\""@ + spec + "\",sources,\""@,
        None => "        let result = eval(sources,\""@,
    }) + spec_cleanup(script) + "\");\n\n"@
}

pub open spec fn spec_generate(t: TestStateView) -> Seq<char> {
    match t.file {
        Some(file) => spec_generate_file(t, file),
        None => spec_generate_script(t, t.script),
    }
}

/// A test element holds attributes, text and ends; any other token is
/// refused, as is text that cannot be unescaped.
pub open spec fn test_accepts(t: XmlEventView) -> bool {
    match t {
        XmlEventView::Attribute(_, _) | XmlEventView::Cdata(_) | XmlEventView::Open | XmlEventView::Close(_)
        | XmlEventView::Empty => true,
        XmlEventView::Text(x) => text_cleanup(x) is Some,
        _ => false,
    }
}

pub open spec fn test_step(s: TestStateView, t: XmlEventView) -> (TestStateView, bool, Seq<char>) {
    match t {
        XmlEventView::Attribute(local, value) => if local == "file"@ {
            (TestStateView { file: Some(value), ..s }, false, seq![])
        } else {
            (s, false, seq![])
        },
        XmlEventView::Text(x) => (TestStateView { script: s.script + text_cleanup(x)->0, ..s }, false, seq![]),
        XmlEventView::Cdata(x) => (TestStateView { script: s.script + x, ..s }, false, seq![]),
        XmlEventView::Empty => (s, true, spec_generate(s)),
        XmlEventView::Close(local) => if local == "test"@ {
            (s, true, spec_generate(s))
        } else {
            (s, false, seq![])
        },
        _ => (s, false, seq![]),
    }
}

impl TestState {
    pub fn empty(test_name: String, spec: Option<String>, env: Option<Environment>, dir: String) -> (r: TestState)
        ensures
            r@ == (TestStateView {
                test_name: test_name@,
                spec: opt_view(spec),
                env: opt_env_view(env),
                dir: dir@,
                file: None,
                script: seq![],
            }),
    {
        TestState { test_name, spec, env, dir, file: None, script: String::new() }
    }

    fn generate_head(&self, generated: &mut String)
        ensures
            final(generated)@ == old(generated)@ + spec_generate_head(self@),
    {
        let ghost start = generated@;
        generated.append("    #[test]\n    fn ");
        generated.append(fn_name(self.test_name.clone()).as_str());
        generated.append("() {\n");
        let ghost mid = generated@;
        match &self.env {
            Some(env) => {
                if env.sources.len() != 0 {
                    generated.append("        let mut sources: Vec<(&str,&str)> = vec![];\n");
                    let ghost base = generated@;
                    let mut i: usize = 0;
                    while i < env.sources.len()
                        invariant
                            i <= env.sources@.len(),
                            generated@ == base + spec_source_lines(
                                env@.sources.subrange(0, i as int),
                                env.path@,
                            ),
                        decreases env.sources@.len() - i,
                    {
                        let ghost before = generated@;
                        generated.append("        sources.push((\"");
                        generated.append(env.sources[i].role.as_str());
                        generated.append("\",\"");
                        generated.append(env.path.as_str());
                        generated.append(env.sources[i].file.as_str());
                        generated.append("\"));\n");
                        proof {
                            let sub = env@.sources.subrange(0, i + 1);
                            assert(sub.drop_last() =~= env@.sources.subrange(0, i as int));
                            assert(sub.last() == env.sources@[i as int]@);
                        }
                        i = i + 1;
                        assert(generated@ =~= base + spec_source_lines(
                            env@.sources.subrange(0, i as int),
                            env.path@,
                        ));
                    }
                    assert(env@.sources.subrange(0, env.sources@.len() as int) =~= env@.sources);
                } else {
                    generated.append("        let sources: Vec<(&str,&str)> = vec![];\n");
                }
            },
            None => {
                generated.append("        let sources: Vec<(&str,&str)> = vec![];\n");
            },
        }
        assert(generated@ =~= start + spec_generate_head(self@));
    }

    fn generate_file(&self, generated: &mut String, file: String)
        ensures
            final(generated)@ == old(generated)@ + spec_generate_file(self@, file@),
    {
        let ghost start = generated@;
        self.generate_head(generated);
        if eq_lit(&self.test_name, "K-Literals-29") {
            generated.append("        let script = String::new();\n");
        } else {
            generated.append("        let script = fs::read_to_string(\"./qt3tests/");
            generated.append(self.dir.as_str());
            generated.append(file.as_str());
            generated.append("\").unwrap();\n");
        }
        generated.append("        let result = eval(sources, script.as_str());\n");
        assert(generated@ =~= start + spec_generate_file(self@, file@));
    }

    fn generate_script(&self, generated: &mut String, script: String)
        ensures
            final(generated)@ == old(generated)@ + spec_generate_script(self@, script@),
    {
        let ghost start = generated@;
        let ghost raw = script@;
        let script = cleanup(script);
        self.generate_head(generated);
        match &self.spec {
            Some(spec) => {
                generated.append("        let result = eval_on_spec(\"");
                generated.append(spec.as_str());
                generated.append("\",sources,\"");
            },
            None => {
                generated.append("        let result = eval(sources,\"");
            },
        }
        generated.append(script.as_str());
        generated.append("\");\n\n");
        assert(generated@ =~= start + spec_generate_script(self@, raw));
    }

    pub fn generate(&self, generated: &mut String)
        ensures
            final(generated)@ == old(generated)@ + spec_generate(self@),
    {
        match &self.file {
            Some(file) => self.generate_file(generated, file.clone()),
            None => self.generate_script(generated, self.script.clone()),
        }
    }

    pub fn event(&mut self, token: &XmlEvent, generated: &mut String) -> (r: bool)
        requires
            test_accepts(token@),
        ensures
            final(self)@ == test_step(old(self)@, token@).0,
            r == test_step(old(self)@, token@).1,
            final(generated)@ == old(generated)@ + test_step(old(self)@, token@).2,
    {
        let ghost start = generated@;
        assert(start =~= start + seq![]);
        match token {
            XmlEvent::Attribute { local, value } => {
                if eq_lit(local, "file") {
                    self.file = Some(value.clone());
                }
                false
            },
            XmlEvent::TagEnd(TagEnd::Open) => false,
            XmlEvent::TagEnd(TagEnd::Close(local)) => {
                if eq_lit(local, "test") {
                    self.generate(generated);
                    true
                } else {
                    false
                }
            },
            XmlEvent::TagEnd(TagEnd::Empty) => {
                self.generate(generated);
                true
            },
            XmlEvent::Text(text) => {
                let bytes = utf8_bytes(text.as_str());
                let data = string_cleanup(bytes.as_slice()).unwrap();
                self.script.append(data.as_str());
                false
            },
            XmlEvent::Cdata(text) => {
                self.script.append(text.as_str());
                false
            },
            _ => false,
        }
    }
}

// ---------------------------------------------------------------- refusals

/// Whether a token ends an element.
pub fn ends_element(token: &XmlEvent) -> (r: bool)
    ensures
        r == is_end(token@),
{
    match token {
        XmlEvent::TagEnd(_) => true,
        _ => false,
    }
}

/// Whether raw character data can be cleaned.
pub fn text_cleans(text: &String) -> (r: bool)
    ensures
        r == (text_cleanup(text@) is Some),
{
    let bytes = utf8_bytes(text.as_str());
    string_cleanup(bytes.as_slice()).is_some()
}

pub fn source_takes(token: &XmlEvent) -> (r: bool)
    ensures
        r == source_accepts(token@),
{
    match token {
        XmlEvent::Attribute { .. } => true,
        _ => ends_element(token),
    }
}

impl ErrorState {
    pub fn takes(&self, token: &XmlEvent) -> (r: bool)
        ensures
            r == error_accepts(self@, token@),
    {
        match token {
            XmlEvent::Attribute { .. } => true,
            XmlEvent::TagEnd(TagEnd::Empty) => self.code.is_some(),
            _ => false,
        }
    }
}

impl AssertState {
    pub fn takes(&self, token: &XmlEvent) -> (r: bool)
        ensures
            r == assert_accepts(self@, token@),
    {
        match token {
            XmlEvent::Attribute { .. } | XmlEvent::Cdata(_) => true,
            XmlEvent::TagEnd(TagEnd::Open) | XmlEvent::TagEnd(TagEnd::Empty) => true,
            XmlEvent::Text(x) => text_cleans(x),
            XmlEvent::TagEnd(TagEnd::Close(local)) => !eq_lit(local, self.open_tag.as_str()) || self.have_value,
            _ => false,
        }
    }

    /// Whether the token ends the assertion element.
    pub fn ended_by(&self, token: &XmlEvent) -> (r: bool)
        ensures
            r == assert_step(self@, token@).1,
    {
        match token {
            XmlEvent::TagEnd(TagEnd::Empty) => true,
            XmlEvent::TagEnd(TagEnd::Close(local)) => eq_lit(local, self.open_tag.as_str()),
            _ => false,
        }
    }
}

pub fn test_takes(token: &XmlEvent) -> (r: bool)
    ensures
        r == test_accepts(token@),
{
    match token {
        XmlEvent::Attribute { .. } | XmlEvent::Cdata(_) | XmlEvent::TagEnd(_) => true,
        XmlEvent::Text(x) => text_cleans(x),
        _ => false,
    }
}

} // verus!
