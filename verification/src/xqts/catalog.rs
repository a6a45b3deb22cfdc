use vstd::prelude::*;
use crate::xqts::model::{eq_lit, EnvTable, EnvironmentView, XmlEvent, XmlEventView, TagEnd};
use crate::xqts::states::{
    empty_environment_state, environment_accepts, environment_data, environment_step,
    EnvironmentState, EnvironmentStateView,
};
use crate::xqts::generator::{spec_xml_tokens, suite_root, xml_tokens};

verus! {

/// A test set the catalog lists: its name, its file, and the test
/// environments declared before it.
pub struct TestSetJob {
    pub name: String,
    pub file: String,
    pub envs: EnvTable,
}

pub struct TestSetJobView {
    pub name: Seq<char>,
    pub file: Seq<char>,
    pub envs: Map<Seq<char>, EnvironmentView>,
}

impl View for TestSetJob {
    type V = TestSetJobView;

    open spec fn view(&self) -> TestSetJobView {
        TestSetJobView { name: self.name@, file: self.file@, envs: self.envs@ }
    }
}

/// Reads the test-suite catalog: the shared environments and the test sets.
pub struct CatalogState {
    pub envs: EnvTable,
    pub environment: Option<EnvironmentState>,
    pub inside_test_set: bool,
    pub tests_name: String,
    pub tests_file: String,
}

pub struct CatalogStateView {
    pub envs: Map<Seq<char>, EnvironmentView>,
    pub environment: Option<EnvironmentStateView>,
    pub inside_test_set: bool,
    pub tests_name: Seq<char>,
    pub tests_file: Seq<char>,
}

impl View for CatalogState {
    type V = CatalogStateView;

    open spec fn view(&self) -> CatalogStateView {
        CatalogStateView {
            envs: self.envs@,
            environment: match self.environment {
                Some(e) => Some(e@),
                None => None,
            },
            inside_test_set: self.inside_test_set,
            tests_name: self.tests_name@,
            tests_file: self.tests_file@,
        }
    }
}

pub open spec fn catalog_environment_stage(s: CatalogStateView, t: XmlEventView) -> (CatalogStateView, bool) {
    match s.environment {
        Some(es) => {
            let (es2, done) = environment_step(es, t);
            if done {
                (CatalogStateView {
                    environment: None,
                    envs: s.envs.insert(es2.name->0, environment_data(es2, suite_root())),
                    ..s
                }, false)
            } else {
                (CatalogStateView { environment: Some(es2), ..s }, true)
            }
        },
        None => (s, false),
    }
}

pub open spec fn catalog_own_step(s: CatalogStateView, t: XmlEventView) -> (CatalogStateView, Option<TestSetJobView>) {
    match t {
        XmlEventView::ElementStart(local) => if local == "environment"@ {
            (CatalogStateView { environment: Some(empty_environment_state()), ..s }, None)
        } else if local == "test-set"@ {
            (CatalogStateView { inside_test_set: true, tests_name: seq![], tests_file: seq![], ..s }, None)
        } else {
            (s, None)
        },
        XmlEventView::Attribute(local, value) => if s.inside_test_set && local == "name"@ {
            (CatalogStateView { tests_name: value, ..s }, None)
        } else if s.inside_test_set && local == "file"@ {
            (CatalogStateView { tests_file: value, ..s }, None)
        } else {
            (s, None)
        },
        XmlEventView::Empty => if s.inside_test_set {
            (
                CatalogStateView { inside_test_set: false, tests_name: seq![], tests_file: seq![], ..s },
                Some(TestSetJobView { name: s.tests_name, file: s.tests_file, envs: s.envs }),
            )
        } else {
            (s, None)
        },
        _ => (s, None),
    }
}

/// The catalog after a token, and the test set it completes, if any.
pub open spec fn catalog_step(s: CatalogStateView, t: XmlEventView) -> (CatalogStateView, Option<TestSetJobView>) {
    let (s1, stop) = catalog_environment_stage(s, t);
    if stop {
        (s1, None)
    } else {
        catalog_own_step(s1, t)
    }
}

/// A finished environment must have a name.
pub open spec fn catalog_accepts(s: CatalogStateView, t: XmlEventView) -> bool {
    s.environment matches Some(es) ==> {
        &&& environment_accepts(es, t)
        &&& environment_step(es, t).1 ==> environment_step(es, t).0.name is Some
    }
}

impl CatalogState {
    pub fn new() -> (r: CatalogState)
        ensures
            r@ == (CatalogStateView {
                envs: Map::empty(),
                environment: None,
                inside_test_set: false,
                tests_name: seq![],
                tests_file: seq![],
            }),
    {
        CatalogState {
            envs: EnvTable::new(),
            environment: None,
            inside_test_set: false,
            tests_name: String::new(),
            tests_file: String::new(),
        }
    }

    pub fn takes(&self, token: &XmlEvent) -> (r: bool)
        ensures
            r == catalog_accepts(self@, token@),
    {
        match &self.environment {
            Some(es) => es.takes(token) && (!es.ended_by(token) || es.name.is_some()),
            None => true,
        }
    }

    pub fn event(&mut self, token: &XmlEvent) -> (r: Option<TestSetJob>)
        requires
            catalog_accepts(old(self)@, token@),
        ensures
            final(self)@ == catalog_step(old(self)@, token@).0,
            match r {
                Some(job) => catalog_step(old(self)@, token@).1 == Some(job@),
                None => catalog_step(old(self)@, token@).1 is None,
            },
    {
        let ghost s0 = self@;
        if self.environment.is_some() {
            let mut es = self.environment.take().unwrap();
            let mut scratch = String::new();
            if es.event(token, &mut scratch) {
                match es.to_data(String::from_str("./qt3tests/")) {
                    Some(env) => {
                        let name = match &env.name {
                            Some(n) => n.clone(),
                            None => String::new(),
                        };
                        self.envs.insert(name, env);
                    },
                    None => {},
                }
            } else {
                self.environment = Some(es);
                return None;
            }
        }
        assert(self@ == catalog_environment_stage(s0, token@).0);
        match token {
            XmlEvent::ElementStart { local } => {
                if eq_lit(local, "environment") {
                    self.environment = Some(EnvironmentState::empty());
                } else if eq_lit(local, "test-set") {
                    self.inside_test_set = true;
                    self.tests_name = String::new();
                    self.tests_file = String::new();
                }
                None
            },
            XmlEvent::Attribute { local, value } => {
                if self.inside_test_set && eq_lit(local, "name") {
                    self.tests_name = value.clone();
                } else if self.inside_test_set && eq_lit(local, "file") {
                    self.tests_file = value.clone();
                }
                None
            },
            XmlEvent::TagEnd(TagEnd::Empty) => {
                if self.inside_test_set {
                    let job = TestSetJob {
                        name: self.tests_name.clone(),
                        file: self.tests_file.clone(),
                        envs: self.envs.duplicate(),
                    };
                    self.tests_name = String::new();
                    self.tests_file = String::new();
                    self.inside_test_set = false;
                    Some(job)
                } else {
                    None
                }
            },
            _ => None,
        }
    }
}

/// The catalog after each token in turn, with the test sets completed so
/// far; `None` at the first token it refuses.
pub open spec fn spec_catalog_run(
    s: CatalogStateView,
    jobs: Seq<TestSetJobView>,
    tokens: Seq<XmlEventView>,
) -> Option<Seq<TestSetJobView>>
    decreases tokens.len(),
{
    if tokens.len() == 0 {
        Some(jobs)
    } else if catalog_accepts(s, tokens[0]) {
        let (s2, job) = catalog_step(s, tokens[0]);
        spec_catalog_run(
            s2,
            match job {
                Some(j) => jobs.push(j),
                None => jobs,
            },
            tokens.drop_first(),
        )
    } else {
        None
    }
}

pub open spec fn initial_catalog() -> CatalogStateView {
    CatalogStateView {
        envs: Map::empty(),
        environment: None,
        inside_test_set: false,
        tests_name: seq![],
        tests_file: seq![],
    }
}

/// The test sets of a catalog, in the order it lists them; `None` where the
/// text is not well-formed XML or a token is refused.
pub open spec fn spec_catalog_jobs(data: Seq<char>) -> Option<Seq<TestSetJobView>> {
    match spec_xml_tokens(data) {
        Some(tokens) => spec_catalog_run(initial_catalog(), seq![], tokens),
        None => None,
    }
}

pub fn catalog_jobs(data: &str) -> (r: Option<Vec<TestSetJob>>)
    ensures
        r is Some <==> spec_catalog_jobs(data@) is Some,
        r matches Some(v) ==> spec_catalog_jobs(data@) == Some(v@.map_values(|j: TestSetJob| j@)),
{
    let tokens = match xml_tokens(data) {
        Some(t) => t,
        None => return None,
    };
    let ghost toks = tokens@.map_values(|t: XmlEvent| t@);
    let mut state = CatalogState::new();
    let mut jobs: Vec<TestSetJob> = Vec::new();
    let mut i: usize = 0;
    assert(toks.subrange(0, toks.len() as int) =~= toks);
    assert(jobs@.map_values(|j: TestSetJob| j@) =~= Seq::<TestSetJobView>::empty());
    while i < tokens.len()
        invariant
            i <= tokens@.len(),
            toks == tokens@.map_values(|t: XmlEvent| t@),
            spec_xml_tokens(data@) == Some(toks),
            spec_catalog_jobs(data@) == spec_catalog_run(
                state@,
                jobs@.map_values(|j: TestSetJob| j@),
                toks.subrange(i as int, toks.len() as int),
            ),
        decreases tokens@.len() - i,
    {
        let ghost rest = toks.subrange(i as int, toks.len() as int);
        assert(rest[0] == tokens@[i as int]@);
        assert(rest.drop_first() =~= toks.subrange(i + 1, toks.len() as int));
        if !state.takes(&tokens[i]) {
            return None;
        }
        let ghost before = jobs@.map_values(|j: TestSetJob| j@);
        match state.event(&tokens[i]) {
            Some(job) => {
                jobs.push(job);
                assert(jobs@.map_values(|j: TestSetJob| j@) =~= before.push(jobs@.last()@));
            },
            None => {},
        }
        i = i + 1;
    }
    assert(toks.subrange(i as int, toks.len() as int) =~= Seq::<XmlEventView>::empty());
    Some(jobs)
}

} // verus!
