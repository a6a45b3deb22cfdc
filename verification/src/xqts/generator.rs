use vstd::prelude::*;
use xmlparser::{ElementEnd, Token};
use crate::xqts::text::{
    contains_str, lowercase, replace_all, spec_contains, spec_lowercase, spec_replace, utf8_bytes,
    utf8_decode,
};
use crate::xqts::codegen::{folder, spec_folder};
use crate::xqts::model::{eq_lit, EnvTable, EnvironmentView, XmlEvent, XmlEventView, TagEnd};
use crate::xqts::leaf::ends_element;
use crate::xqts::states::{
    empty_environment_state, empty_test_case, environment_accepts, environment_data,
    environment_step, test_case_accepts, test_case_step, EnvironmentState,
    EnvironmentStateView, TestCaseState, TestCaseStateView,
};

verus! {

/// What `xmlparser::Tokenizer` yields for a text, each token read as a
/// `XmlEvent`: `None` where it reports an error.
pub uninterp spec fn spec_xml_tokens(text: Seq<char>) -> Option<Seq<XmlEventView>>;

/// A token of `xmlparser`, carried through opaquely.
#[verifier::external_type_specification]
#[verifier::external_body]
pub struct ExXmlToken<'a>(xmlparser::Token<'a>);

/// Reads one `xmlparser::Token` as an `XmlEvent`, keeping the local names,
/// attribute values and texts.
#[verifier::external_body]
fn token_from_xml(t: Token) -> (r: XmlEvent) {
    match t {
        Token::ElementStart { local, .. } => XmlEvent::ElementStart { local: local.to_string() },
        Token::Attribute { local, value, .. } => XmlEvent::Attribute { local: local.to_string(), value: value.to_string() },
        Token::ElementEnd { end: ElementEnd::Open, .. } => XmlEvent::TagEnd(TagEnd::Open),
        Token::ElementEnd { end: ElementEnd::Close(_, local), .. } => XmlEvent::TagEnd(TagEnd::Close(local.to_string())),
        Token::ElementEnd { end: ElementEnd::Empty, .. } => XmlEvent::TagEnd(TagEnd::Empty),
        Token::Text { text } => XmlEvent::Text(text.to_string()),
        Token::Cdata { text, .. } => XmlEvent::Cdata(text.to_string()),
        _ => XmlEvent::Other,
    }
}

/// The tokens of an XML text (`xmlparser::Tokenizer`), or `None` at the
/// first error it reports. The result is named by `spec_xml_tokens`.
#[verifier::external_body]
pub(crate) fn xml_tokens(text: &str) -> (r: Option<Vec<XmlEvent>>)
    ensures
        r.is_none() == spec_xml_tokens(text@).is_none(),
        r.is_some() ==> spec_xml_tokens(text@) == Some(r.unwrap()@.map_values(|t: XmlEvent| t@)),
{
    let mut out = Vec::new();
    for t in xmlparser::Tokenizer::from(text) {
        out.push(token_from_xml(t.ok()?));
    }
    Some(out)
}

// ---------------------------------------------------------------- test set

/// Turns the tokens of a test-set file into the source of its generated
/// test module.
pub struct TestSetGenerator {
    pub dir: String,
    pub envs: EnvTable,
    pub environment: Option<EnvironmentState>,
    pub test_case: Option<TestCaseState>,
    pub generated: String,
}

pub struct TestSetGeneratorView {
    pub dir: Seq<char>,
    pub envs: Map<Seq<char>, EnvironmentView>,
    pub environment: Option<EnvironmentStateView>,
    pub test_case: Option<TestCaseStateView>,
    pub generated: Seq<char>,
}

impl View for TestSetGenerator {
    type V = TestSetGeneratorView;

    open spec fn view(&self) -> TestSetGeneratorView {
        TestSetGeneratorView {
            dir: self.dir@,
            envs: self.envs@,
            environment: match self.environment {
                Some(e) => Some(e@),
                None => None,
            },
            test_case: match self.test_case {
                Some(t) => Some(t@),
                None => None,
            },
            generated: self.generated@,
        }
    }
}

/// Where the files of the test environments are.
pub open spec fn suite_root() -> Seq<char> {
    "./qt3tests/"@
}

/// The start of a generated test module.
pub open spec fn module_header() -> Seq<char> {
    "#[cfg(test)]\nmod tests {\n    use crate::tests::*;\n    use std::fs;\n\n"@
}

pub open spec fn generator_environment_stage(s: TestSetGeneratorView, t: XmlEventView) -> (TestSetGeneratorView, bool) {
    match s.environment {
        Some(es) => {
            let (es2, done) = environment_step(es, t);
            if done {
                (TestSetGeneratorView {
                    environment: None,
                    envs: s.envs.insert(es2.name->0, environment_data(es2, suite_root())),
                    ..s
                }, false)
            } else {
                (TestSetGeneratorView { environment: Some(es2), ..s }, true)
            }
        },
        None => (s, false),
    }
}

pub open spec fn generator_test_case_stage(s: TestSetGeneratorView, t: XmlEventView) -> (TestSetGeneratorView, bool) {
    match s.test_case {
        Some(tc) => {
            let (tc2, done, out) = test_case_step(tc, t);
            (TestSetGeneratorView {
                test_case: if done { None } else { Some(tc2) },
                generated: s.generated + out,
                ..s
            }, !done)
        },
        None => (s, false),
    }
}

pub open spec fn generator_own_step(s: TestSetGeneratorView, t: XmlEventView) -> TestSetGeneratorView {
    match t {
        XmlEventView::ElementStart(local) => if local == "environment"@ {
            TestSetGeneratorView { environment: Some(empty_environment_state()), ..s }
        } else if local == "test-case"@ {
            TestSetGeneratorView { test_case: Some(empty_test_case(s.dir, s.envs)), ..s }
        } else {
            s
        },
        _ => s,
    }
}

/// The generator after a token: a pending environment takes it first, then
/// a pending test case, and what neither keeps may open one.
pub open spec fn generator_step(s: TestSetGeneratorView, t: XmlEventView) -> TestSetGeneratorView {
    let (s1, stop1) = generator_environment_stage(s, t);
    if stop1 {
        s1
    } else {
        let (s2, stop2) = generator_test_case_stage(s1, t);
        if stop2 {
            s2
        } else {
            generator_own_step(s2, t)
        }
    }
}

/// A finished environment must have a name; pending elements refuse what
/// they refuse.
pub open spec fn generator_accepts(s: TestSetGeneratorView, t: XmlEventView) -> bool {
    &&& s.environment matches Some(es) ==> {
        &&& environment_accepts(es, t)
        &&& environment_step(es, t).1 ==> environment_step(es, t).0.name is Some
    }
    &&& {
        let (s1, stop1) = generator_environment_stage(s, t);
        !stop1 ==> (s1.test_case matches Some(tc) ==> test_case_accepts(tc, t))
    }
}

/// The module text once every token is read.
pub open spec fn spec_finish(generated: Seq<char>) -> Seq<char> {
    let g = generated + "}\n"@;
    if spec_contains(g, "fs::"@) {
        g
    } else {
        spec_replace(g, "    use std::fs;\n"@, ""@)
    }
}

impl EnvironmentState {
    /// Whether the token ends the environment element.
    pub fn ended_by(&self, token: &XmlEvent) -> (r: bool)
        ensures
            r == environment_step(self@, token@).1,
            r ==> environment_step(self@, token@).0.name == self@.name,
    {
        let ends = ends_element(token);
        if self.namespace.is_some() && !ends {
            return false;
        }
        if self.source.is_some() && !ends {
            return false;
        }
        match token {
            XmlEvent::TagEnd(TagEnd::Close(local)) => eq_lit(local, "environment"),
            XmlEvent::TagEnd(TagEnd::Empty) => self.reference.is_some(),
            _ => false,
        }
    }
}

impl TestSetGenerator {
    pub fn new(dir: String, envs: EnvTable) -> (r: TestSetGenerator)
        ensures
            r@ == (TestSetGeneratorView {
                dir: dir@,
                envs: envs@,
                environment: None,
                test_case: None,
                generated: module_header(),
            }),
    {
        TestSetGenerator {
            dir,
            envs,
            environment: None,
            test_case: None,
            generated: String::from_str("#[cfg(test)]\nmod tests {\n    use crate::tests::*;\n    use std::fs;\n\n"),
        }
    }

    pub fn takes(&self, token: &XmlEvent) -> (r: bool)
        ensures
            r == generator_accepts(self@, token@),
    {
        let mut stop1 = false;
        match &self.environment {
            Some(es) => {
                if !es.takes(token) {
                    return false;
                }
                if es.ended_by(token) {
                    if es.name.is_none() {
                        return false;
                    }
                } else {
                    stop1 = true;
                }
            },
            None => {},
        }
        if stop1 {
            return true;
        }
        match &self.test_case {
            Some(tc) => tc.takes(token),
            None => true,
        }
    }

    pub fn event(&mut self, token: &XmlEvent)
        requires
            generator_accepts(old(self)@, token@),
        ensures
            final(self)@ == generator_step(old(self)@, token@),
    {
        let ghost s0 = self@;
        if self.environment.is_some() {
            let mut es = self.environment.take().unwrap();
            let mut scratch = String::new();
            if es.event(token, &mut scratch) {
                match es.to_data(String::from_str("./qt3tests/")) {
                    Some(env) => {
                        let name = match &env.name {
                            Some(n) => n.clone(),
                            None => String::new(),
                        };
                        self.envs.insert(name, env);
                    },
                    None => {},
                }
            } else {
                self.environment = Some(es);
                return;
            }
        }
        assert(self@ == generator_environment_stage(s0, token@).0);
        let ghost s1 = self@;
        if self.test_case.is_some() {
            let mut tc = self.test_case.take().unwrap();
            if !tc.event(token, &mut self.generated) {
                self.test_case = Some(tc);
                return;
            }
        }
        assert(self@ == generator_test_case_stage(s1, token@).0);
        match token {
            XmlEvent::ElementStart { local } => {
                if eq_lit(local, "environment") {
                    self.environment = Some(EnvironmentState::empty());
                } else if eq_lit(local, "test-case") {
                    self.test_case = Some(TestCaseState::empty(self.dir.clone(), self.envs.duplicate()));
                }
            },
            _ => {},
        }
    }

    /// The generated module: the tokens read so far, closed, without the
    /// `use std::fs;` line when no test reads a file.
    pub fn finish(self) -> (r: String)
        ensures
            r@ == spec_finish(self@.generated),
    {
        let mut generated = self.generated;
        generated.append("}\n");
        proof {
            reveal_strlit("    use std::fs;\n");
        }
        if contains_str(generated.as_str(), "fs::") {
            generated
        } else {
            replace_all(generated.as_str(), "    use std::fs;\n", "")
        }
    }
}

// ---------------------------------------------------------------- module file

/// The test set file name, lower-cased and made into a Rust module path.
pub open spec fn spec_mangle(file: Seq<char>) -> Seq<char> {
    spec_replace(
        spec_replace(
            spec_replace(
                spec_replace(
                    spec_replace(
                        spec_replace(spec_lowercase(file), "fn/"@, "fun/"@),
                        "false.xml"@,
                        "bool_false.xml"@,
                    ),
                    "true.xml"@,
                    "bool_true.xml"@,
                ),
                "do.xml"@,
                "loop_do.xml"@,
            ),
            "."@,
            "_"@,
        ),
        "-"@,
        "_"@,
    )
}

/// Whether the last four bytes of the mangled name can be cut off at a
/// character boundary.
pub open spec fn name_cut_ok(file: Seq<char>) -> bool {
    let b = vstd::utf8::encode_utf8(spec_mangle(file));
    b.len() >= 4 && vstd::utf8::valid_utf8(b.subrange(0, b.len() - 4))
}

/// The generated module's file: the mangled name without its last four
/// bytes (the former `.xml`), with `.rs` appended.
pub open spec fn spec_output_file_name(file: Seq<char>) -> Seq<char> {
    let b = vstd::utf8::encode_utf8(spec_mangle(file));
    vstd::utf8::decode_utf8(b.subrange(0, b.len() - 4)) + ".rs"@
}

/// The file of the module generated for a test set file; `None` where the
/// name is too short to lose its last four bytes.
pub fn output_file_name(file: &str) -> (r: Option<String>)
    ensures
        r is Some <==> name_cut_ok(file@),
        r matches Some(n) ==> n@ == spec_output_file_name(file@),
{
    proof {
        reveal_strlit("fn/");
        reveal_strlit("false.xml");
        reveal_strlit("true.xml");
        reveal_strlit("do.xml");
        reveal_strlit(".");
        reveal_strlit("-");
    }
    let m = lowercase(file);
    let m = replace_all(m.as_str(), "fn/", "fun/");
    let m = replace_all(m.as_str(), "false.xml", "bool_false.xml");
    let m = replace_all(m.as_str(), "true.xml", "bool_true.xml");
    let m = replace_all(m.as_str(), "do.xml", "loop_do.xml");
    let m = replace_all(m.as_str(), ".", "_");
    let m = replace_all(m.as_str(), "-", "_");
    let bytes = utf8_bytes(m.as_str());
    if bytes.len() < 4 {
        return None;
    }
    let cut = bytes.len() - 4;
    let mut prefix: Vec<u8> = Vec::new();
    let mut i: usize = 0;
    while i < cut
        invariant
            cut <= bytes@.len(),
            i <= cut,
            prefix@ == bytes@.subrange(0, i as int),
        decreases cut - i,
    {
        prefix.push(bytes[i]);
        i = i + 1;
        assert(prefix@ =~= bytes@.subrange(0, i as int));
    }
    match utf8_decode(prefix.as_slice()) {
        Some(mut name) => {
            name.append(".rs");
            Some(name)
        },
        None => None,
    }
}

/// The generator after each token in turn; `None` at the first token it
/// refuses.
pub open spec fn spec_run(s: TestSetGeneratorView, tokens: Seq<XmlEventView>) -> Option<TestSetGeneratorView>
    decreases tokens.len(),
{
    if tokens.len() == 0 {
        Some(s)
    } else if generator_accepts(s, tokens[0]) {
        spec_run(generator_step(s, tokens[0]), tokens.drop_first())
    } else {
        None
    }
}

pub open spec fn initial_generator(dir: Seq<char>, envs: Map<Seq<char>, EnvironmentView>) -> TestSetGeneratorView {
    TestSetGeneratorView { dir, envs, environment: None, test_case: None, generated: module_header() }
}

/// The module generated for a test set file: its file and its text.
pub open spec fn spec_generate_test_module(
    file: Seq<char>,
    data: Seq<char>,
    envs: Map<Seq<char>, EnvironmentView>,
) -> Option<(Seq<char>, Seq<char>)> {
    match spec_xml_tokens(data) {
        Some(tokens) => match spec_run(initial_generator(spec_folder(file), envs), tokens) {
            Some(g) => if name_cut_ok(file) {
                Some((spec_output_file_name(file), spec_finish(g.generated)))
            } else {
                None
            },
            None => None,
        },
        None => None,
    }
}

/// Generates the test module for the test set in `file`, whose text is
/// `data`, in the test environments `envs`: the file to write it to, and
/// its text. `None` where the text is not well-formed XML, a token is
/// refused, or the file name is too short.
pub fn generate_test_module(file: &str, data: &str, envs: EnvTable) -> (r: Option<(String, String)>)
    ensures
        r is Some <==> spec_generate_test_module(file@, data@, envs@) is Some,
        r matches Some(p) ==> spec_generate_test_module(file@, data@, envs@) == Some((p.0@, p.1@)),
{
    let dir = folder(file.to_owned());
    let tokens = match xml_tokens(data) {
        Some(t) => t,
        None => return None,
    };
    let ghost toks = tokens@.map_values(|t: XmlEvent| t@);
    let ghost envs_v = envs@;
    let mut gen = TestSetGenerator::new(dir, envs);
    let ghost g0 = gen@;
    let mut i: usize = 0;
    assert(toks.subrange(0, toks.len() as int) =~= toks);
    while i < tokens.len()
        invariant
            i <= tokens@.len(),
            toks == tokens@.map_values(|t: XmlEvent| t@),
            spec_xml_tokens(data@) == Some(toks),
            g0 == initial_generator(spec_folder(file@), envs_v),
            envs_v == envs@,
            spec_run(g0, toks) == spec_run(gen@, toks.subrange(i as int, toks.len() as int)),
        decreases tokens@.len() - i,
    {
        let ghost rest = toks.subrange(i as int, toks.len() as int);
        assert(rest[0] == tokens@[i as int]@);
        assert(rest.drop_first() =~= toks.subrange(i + 1, toks.len() as int));
        if !gen.takes(&tokens[i]) {
            return None;
        }
        gen.event(&tokens[i]);
        i = i + 1;
    }
    let ghost gfin = gen@;
    assert(toks.subrange(i as int, toks.len() as int) =~= Seq::<XmlEventView>::empty());
    let text = gen.finish();
    match output_file_name(file) {
        Some(name) => Some((name, text)),
        None => None,
    }
}

} // verus!
