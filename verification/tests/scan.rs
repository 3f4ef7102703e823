use runst::error::BackendError;
use runst::scan::tests_a_list;
use runst::template::WindowRenderState;
use tera::Tera;

fn all(templates: &[&str], expected: bool) {
    for template in templates {
        assert_eq!(tests_a_list(template), expected, "{template}");
    }
}

#[test]
fn lists_in_tests_are_found() {
    all(
        &[
            "{{ x is containing([1]) }}",
            "{{ x is not containing([1]) }}",
            "{% if a is in([1, 2]) %}{% endif %}",
            "  {% if b and a.c is in( [1, 2] ) %}{% endif %}\n",
            "{{ x is matching(1, [2]) }}",
            "{{ x is matching(f(a=1), (2), \"(\", [3]) }}",
            "{{ a[0] is in([]) }}",
            "{{ a[\"]\"] is in(\n[]) }}",
            "{{ f(a=x is in([1])) }}",
            "{{ [x is in([1])] }}",
            "{% set y = x is in([1]) %}",
            "{% for y in x is in([1]) %}{% endfor %}",
            "text {{ x }} {# c #} {{- x is in([1]) -}}",
        ],
        true,
    );
}

#[test]
fn blanks_are_optional() {
    all(
        &[
            "{{x is in([1])}}",
            "{{ x iscontaining([1]) }}",
            "{{ x isnotcontaining([1]) }}",
            "{{ x isnot containing([1]) }}",
            "{{ x is notcontaining([1]) }}",
            "{{ x is not([1]) }}",
            "{{ x isnot([1]) }}",
            "{{ a[0]is in([1]) }}",
            "{{ a[0]isin ([1]) }}",
            "{%if a[0]is not in([1])%}{%endif%}",
        ],
        true,
    );
}

#[test]
fn no_word_is_reserved() {
    all(
        &[
            "{{ and is in([1]) }}",
            "{{ and isin([1]) }}",
            "{{ is is in([1]) }}",
            "{{ a and and isin([1]) }}",
            "{{ 1and or isin([1]) }}",
            "{{ not in isin([1]) }}",
            "{{ not not isin([1]) }}",
            "{{ (not isin([1])) }}",
            "{{ 1 + not isin([1]) }}",
            "{{ a == not isin([1]) }}",
            "{{ a >= not isin([1]) }}",
            "{% if or isin([1]) %}{% endif %}",
            "{% for y in not isin([1]) %}{% endfor %}",
        ],
        true,
    );
}

#[test]
fn other_lists_are_not_meant() {
    all(
        &[
            "{{ f([1]) }}",
            "{{ f(1, [1]) }}",
            "{{ f(a=[1]) }}",
            "{{ x | f(a=[1], b=[2]) }}",
            "{{ m::f([1]) }}",
            "{{ x in [1] }}",
            "{{ [1, [2]] }}",
            "{{ x is containing(1) }}",
            "{{ x is containing(a[0]) }}",
            "{{ x is containing(f(a=[1])) }}",
            "{{ x is containing and f([1]) }}",
            "{{ (x is containing)([1]) }}",
            "{% for y in [1, 2] %}{% endfor %}",
            "{% set y = [1] %}",
            "{% include [\"a\", \"b\"] %}",
        ],
        false,
    );
}

#[test]
fn names_that_begin_like_a_test() {
    all(
        &[
            "{{ is_open([1]) }}",
            "{{ x.is_open([1]) }}",
            "{{ x | is_open([1]) }}",
            "{{ a and is_open([1]) }}",
            "{{ not is_open([1]) }}",
            "{{ f(a=not is_open([1]), b = not is_open([1])) }}",
            "{{ [not is_open([1]), not is_open([1])] }}",
            "{% set y = not is_open([1]) %}",
            "{{ a or not is_open([1]) }}",
            "{{ \"a\" in is_open([1]) }}",
            "{% if is_open([1]) %}{% endif %}",
            "{% if not is_open([1]) %}{% endif %}",
            "{%- elif is_open([1]) %}",
            "{% for a in is_open([1]) %}{% endfor %}",
            "{{ is foo([1]) }}",
        ],
        false,
    );
}

#[test]
fn only_tags_count() {
    all(
        &[
            "",
            "x is in([1])",
            "{ x is in([1]) }",
            "{# {{ x is in([1]) }} #}",
            "{#} x is in([1]) {{ x is in([1]) }} #}",
            "{{ \"x is in([1])\" }}",
            "{{ 'x' ~ `is in([1])` }}",
            "{{ x is in(\"[1]\") }}",
            "{% raw %}{{ x is in([1]) }}{% endraw %}",
            "{%-raw-%}{% endrawx %}% endraw %}{{ x is in([1]) }}{%- endraw -%}",
            "{% raw %}{% if {% endraw %} x is in([1])",
            "{%raw%}{%--endraw%}{{x is a([1])}}{%endraw%}",
            "{%raw%}{%endraw--%}{{x is a([1])}}{%endraw%}",
        ],
        false,
    );
    all(
        &[
            "{# #}{{ x is in([1]) }}",
            "{{ \"}}\" }}{{ x is in([1]) }}",
            "{{ '\"' }}{{ x is in([1]) }}",
            "{% raw %}{{{% endraw %}{{ x is in([1]) }}",
            "{% raw %}{% x {% endraw %}{{ x is in([1]) }}",
            "{{ raw }}{{ x is in([1]) }}",
            "{{ x is in([1]) }} more {# text #}",
            "{%raw%}{%--endraw%}{#{%endraw%}{{x is a([1])}}",
            "{%raw%}{%-endraw%}{{x is a([1])}}",
            "{%--raw%}{{x is a([1])}}{%endraw%}",
        ],
        true,
    );
}

/// What the parser refuses for another fault, or does not read as a test.
const REFUSED: [&str; 19] = [
    "{{ f([1]) }}",
    "{% if is_open([1]) %}{% endif %}",
    "{{ a and is_open([1]) }}",
    "{{ x is in([1])",
    "{{ x is in([1]) }",
    "{{ x is in([1]) %}",
    "{% if x is in([1]) }}{% endif %}",
    "{% if x is in([1]) }{% endif %}",
    "{{ x is in([1]) }}{{ \"a }}",
    "{{ x is in([1]) }}{#",
    "{{ x is in([1]) }}{% raw %}",
    "{{ (x is in([1]) }}",
    "{{ x is in([1])) }}",
    "{{ [x is in([1])) }}",
    "{{ x is in([1]) ; }}",
    "{{ true is containing([1]) }}",
    "{{ Falsehood is containing([1]) }}",
    "{{ 1 is containing([1]) }}",
    "{{ x is 1([1]) }}",
];

#[test]
fn what_the_parser_refuses_is_left_to_it() {
    all(&REFUSED, false);
    for template in REFUSED {
        match WindowRenderState::new(template, "Sans") {
            Err(BackendError::TemplateParse(cause)) => assert!(cause.contains("[1]")),
            _ => panic!("a parse failure was expected: {template}"),
        }
    }
    assert!(WindowRenderState::new("{%raw%}{%--endraw%}{{x is a([1])}}{%endraw%}", "Sans").is_ok());
    assert!(WindowRenderState::new("{{ f(a=[1]) }}", "Sans").is_ok());
    assert!(WindowRenderState::new("{# x is in([1]) #}", "Sans").is_ok());
}

/// Makes up templates, most of which the grammar takes.
struct Author {
    seed: u64,
}

impl Author {
    fn pick<'a>(&mut self, choices: &[&'a str]) -> &'a str {
        choices[self.number(choices.len())]
    }

    fn number(&mut self, limit: usize) -> usize {
        self.seed = self.seed.wrapping_mul(6364136223846793005).wrapping_add(1442695040888963407);
        (self.seed >> 33) as usize % limit
    }

    fn gap(&mut self) -> &'static str {
        self.pick(&["", " ", " ", "\n", "\t \r"])
    }

    fn path(&mut self) -> &'static str {
        self.pick(&[
            "x", "and", "or", "in", "not", "is", "isx", "if", "a.b", "a.is", "a[0]", "a[`(`].c",
            "a[\"]\"]", "true", "1", "1.5", "isnot", "for",
        ])
    }

    fn list(&mut self, depth: usize) -> String {
        let first = self.logic(depth);
        match self.number(3) {
            0 => "[]".to_string(),
            1 => format!("[{first}]"),
            _ => format!("[{first},{}{}]", self.gap(), self.logic(depth)),
        }
    }

    fn argument(&mut self, depth: usize) -> String {
        match self.number(3) {
            0 => self.list(depth),
            _ => self.logic(depth),
        }
    }

    fn test(&mut self, depth: usize) -> String {
        let name = self.pick(&["foo", "not", "in", "is", "notfoo", "and", "_x"]);
        let negation = self.pick(&["", "", "not"]);
        let arguments = match self.number(4) {
            0 => String::new(),
            1 => format!("({}{})", self.gap(), self.argument(depth)),
            2 => format!("({})", self.logic(depth)),
            _ => format!("({},{}{})", self.logic(depth), self.gap(), self.argument(depth)),
        };
        let (a, b, c, d) = (self.gap(), self.gap(), self.gap(), self.gap());
        format!("{}{a}is{b}{negation}{c}{name}{d}{arguments}", self.path())
    }

    fn value(&mut self, depth: usize) -> String {
        if depth == 0 {
            return self.path().to_string();
        }
        match self.number(9) {
            0 => format!("({}{})", self.gap(), self.logic(depth - 1)),
            1 => format!("f(a={}{})", self.gap(), self.argument(depth - 1)),
            2 => format!("is_x({})", self.argument(depth - 1)),
            3 => format!("{}|f", self.path()),
            4 => self.pick(&["\"a\"", "'x is in([1])'", "`}}`"]).to_string(),
            5 => self.path().to_string(),
            _ => self.test(depth - 1),
        }
    }

    fn logic(&mut self, depth: usize) -> String {
        let mut text = self.pick(&["", "", "not ", "not\n"]).to_string();
        text.push_str(&self.value(depth));
        for _ in 0..self.number(3) {
            text.push_str(self.pick(&[
                " and ", "and ", " or ", "or\t", "+", " - ", "%", "==", " < ", "!=", " in ", "in",
                " not in ", "*",
            ]));
            text.push_str(self.pick(&["", "", "not "]));
            text.push_str(&self.value(depth));
        }
        text
    }

    fn piece(&mut self, depth: usize) -> String {
        let open = self.pick(&["{%", "{%-", "{% ", "{%\n", "{%- "]);
        let close = self.pick(&["%}", "-%}", " %}", "\t-%}"]);
        let expression = self.logic(2);
        match self.number(if depth == 0 { 6 } else { 9 }) {
            0 => self.pick(&["text", "{", "}", "[", "x is in([1])"]).to_string(),
            1 => self.pick(&["{# {{ #}", "{#-}-#}", "{#\"#}"]).to_string(),
            2 => format!("{open}raw{close}{{{{ ' {}{open}endraw{close}", self.piece(0)),
            3 => format!("{{{{-{expression}-}}}}"),
            4 => format!("{{{{{}{expression} }}}}", self.gap()),
            5 => format!("{open} set in = {expression} {close}"),
            6 => format!("{open}if {expression}{close}{}{open}endif{close}", self.piece(depth - 1)),
            7 => format!("{open}for y in {expression}{close}{}{open}endfor{close}", self.piece(depth - 1)),
            _ => format!("{}{}", self.piece(depth - 1), self.piece(depth - 1)),
        }
    }
}

impl Author {
    /// Braces, dashes and quotes, with a list in a test somewhere among them.
    fn braces(&mut self) -> String {
        let mut text = String::new();
        for _ in 0..self.number(9) {
            text.push_str(self.pick(&[
                "{%raw%}", "{%-raw-%}", "{% raw %}", "{%--raw%}", "{%endraw%}", "{%- endraw -%}",
                "{%--endraw%}", "{%endraw--%}", "{% -endraw%}", "{%{%endraw%}", "{%endraw }", "endraw%}", "{%", "{%-", "%}", "-%}",
                "{#", "{#-", "#}", "-#}", "{#}", "{{", "}}", "{{-", "-}}", "{", "}", "%", "#", "-",
                "\"", "'", "`", "{{x}}", "{{\"}}\"}}", "{{'{#'}}", "{# ' #}", "{{-x-}}", "{{ `%}` }}", "x",
            ]));
            if self.number(4) == 0 {
                text.push_str(self.pick(&["{{x is a([1])}}", "{{-x is a([1])-}}", "{%set x=x is a([1])%}", "{%-set x=x is a([1])-%}"]));
            }
        }
        text.push_str(self.pick(&["", "{{x is a([1])}}", "{%endraw%}{{x is a([1])}}", "#}{{x is a([1])}}", "{%endraw%}"]));
        text
    }
}

/// Whatever is not found, the parser reads to its end.
#[test]
fn the_parser_reads_what_is_not_found() {
    let mut author = Author { seed: 7 };
    let mut found = 0;
    let mut accepted = 0;
    for round in 0..10_000 {
        let template = if round % 2 == 0 { author.piece(2) } else { author.braces() };
        if tests_a_list(&template) {
            found += 1;
        } else if Tera::default().add_raw_template("t", template.trim()).is_ok() {
            accepted += 1;
        }
    }
    assert!(found > 300 && accepted > 300, "{found} {accepted}");
}
