//! Predicates of a query.
use crate::error::ValueError;
use crate::text::{same_text, texts};
use crate::value::Number;
use vstd::prelude::*;
use vstd::string::*;

verus! {

/// A predicate on the field `name`. Whether `cond` and `value` fit
/// together, `Between` with a `Range`, is for whoever runs the query to
/// check.
#[derive(Debug, Clone)]
pub struct Filter {
    pub name: String,
    pub cond: FilterConditionType,
    pub value: FilterValue,
}

/// How a field is compared with the value of a predicate.
#[derive(Debug, Clone, Copy, PartialEq, Eq, Structural)]
pub enum FilterConditionType {
    Eq,
    Neq,
    Cont,
    Dnc,
    Gte,
    Gt,
    Lte,
    Lt,
    Between,
}

/// What a field is compared with.
#[derive(Debug)]
pub enum FilterValue {
    Number(Number),
    Text(String),
    IdList(Vec<String>),
    Range((Number, Number)),
}

/// What the value of a filter holds: the mathematical value that contracts
/// speak of.
pub enum FilterValueModel {
    Number(Number),
    Text(Seq<char>),
    IdList(Seq<Seq<char>>),
    Range(Number, Number),
}

impl View for FilterValue {
    type V = FilterValueModel;

    open spec fn view(&self) -> FilterValueModel {
        match self {
            FilterValue::Number(n) => FilterValueModel::Number(*n),
            FilterValue::Text(s) => FilterValueModel::Text(s@),
            FilterValue::IdList(ids) => FilterValueModel::IdList(texts(ids@)),
            FilterValue::Range(ends) => FilterValueModel::Range(ends.0, ends.1),
        }
    }
}

/// What a predicate holds.
pub struct FilterModel {
    pub name: Seq<char>,
    pub cond: FilterConditionType,
    pub value: FilterValueModel,
}

impl View for Filter {
    type V = FilterModel;

    open spec fn view(&self) -> FilterModel {
        FilterModel { name: self.name@, cond: self.cond, value: self.value@ }
    }
}

/// The texts of a list joined by `,`.
pub open spec fn joined(list: Seq<String>) -> Seq<char>
    decreases list.len(),
{
    if list.len() == 0 {
        Seq::empty()
    } else if list.len() == 1 {
        list[0]@
    } else {
        joined(list.drop_last()) + seq![','] + list.last()@
    }
}

impl FilterConditionType {
    /// The name of the condition on the wire, in lower case.
    pub open spec fn spec_name(self) -> Seq<char> {
        match self {
            FilterConditionType::Eq => "eq"@,
            FilterConditionType::Neq => "neq"@,
            FilterConditionType::Cont => "cont"@,
            FilterConditionType::Dnc => "dnc"@,
            FilterConditionType::Gte => "gte"@,
            FilterConditionType::Gt => "gt"@,
            FilterConditionType::Lte => "lte"@,
            FilterConditionType::Lt => "lt"@,
            FilterConditionType::Between => "between"@,
        }
    }

    /// The condition whose name on the wire is `name`.
    pub open spec fn named(name: Seq<char>) -> Option<FilterConditionType> {
        if name == "eq"@ {
            Some(FilterConditionType::Eq)
        } else if name == "neq"@ {
            Some(FilterConditionType::Neq)
        } else if name == "cont"@ {
            Some(FilterConditionType::Cont)
        } else if name == "dnc"@ {
            Some(FilterConditionType::Dnc)
        } else if name == "gte"@ {
            Some(FilterConditionType::Gte)
        } else if name == "gt"@ {
            Some(FilterConditionType::Gt)
        } else if name == "lte"@ {
            Some(FilterConditionType::Lte)
        } else if name == "lt"@ {
            Some(FilterConditionType::Lt)
        } else if name == "between"@ {
            Some(FilterConditionType::Between)
        } else {
            None
        }
    }

    /// The condition whose name on the wire is `name`.
    pub fn from_name(name: &str) -> (r: Option<FilterConditionType>)
        ensures
            r == Self::named(name@),
    {
        if same_text(name, "eq") {
            Some(FilterConditionType::Eq)
        } else if same_text(name, "neq") {
            Some(FilterConditionType::Neq)
        } else if same_text(name, "cont") {
            Some(FilterConditionType::Cont)
        } else if same_text(name, "dnc") {
            Some(FilterConditionType::Dnc)
        } else if same_text(name, "gte") {
            Some(FilterConditionType::Gte)
        } else if same_text(name, "gt") {
            Some(FilterConditionType::Gt)
        } else if same_text(name, "lte") {
            Some(FilterConditionType::Lte)
        } else if same_text(name, "lt") {
            Some(FilterConditionType::Lt)
        } else if same_text(name, "between") {
            Some(FilterConditionType::Between)
        } else {
            None
        }
    }

    /// A condition is found again from its name.
    pub proof fn lemma_name_comes_back(self)
        ensures
            Self::named(self.spec_name()) == Some(self),
    {
        reveal_strlit("eq");
        reveal_strlit("neq");
        reveal_strlit("cont");
        reveal_strlit("dnc");
        reveal_strlit("gte");
        reveal_strlit("gt");
        reveal_strlit("lte");
        reveal_strlit("lt");
        reveal_strlit("between");
        assert("eq"@.len() == 2 && "eq"@[0] == 'e');
        assert("neq"@.len() == 3 && "neq"@[0] == 'n');
        assert("cont"@.len() == 4);
        assert("dnc"@.len() == 3 && "dnc"@[0] == 'd');
        assert("gte"@.len() == 3 && "gte"@[0] == 'g');
        assert("gt"@.len() == 2 && "gt"@[0] == 'g');
        assert("lte"@.len() == 3 && "lte"@[0] == 'l');
        assert("lt"@.len() == 2 && "lt"@[0] == 'l');
        assert("between"@.len() == 7);
    }

    /// The name of the condition on the wire, in lower case.
    pub fn as_name(&self) -> (r: &'static str)
        ensures
            r@ == self.spec_name(),
    {
        match self {
            FilterConditionType::Eq => "eq",
            FilterConditionType::Neq => "neq",
            FilterConditionType::Cont => "cont",
            FilterConditionType::Dnc => "dnc",
            FilterConditionType::Gte => "gte",
            FilterConditionType::Gt => "gt",
            FilterConditionType::Lte => "lte",
            FilterConditionType::Lt => "lt",
            FilterConditionType::Between => "between",
        }
    }
}

impl Clone for FilterValue {
    fn clone(&self) -> (r: FilterValue)
        ensures
            r.text() == self.text(),
            r is Range == self is Range,
    {
        match self {
            FilterValue::Number(n) => FilterValue::Number(*n),
            FilterValue::Text(s) => FilterValue::Text(s.clone()),
            FilterValue::IdList(ids) => FilterValue::IdList(ids.clone()),
            FilterValue::Range(ends) => FilterValue::Range((ends.0, ends.1)),
        }
    }
}

impl FilterValue {
    /// Whether the value is a range.
    pub fn is_range(&self) -> (r: bool)
        ensures
            r == (self is Range),
    {
        match self {
            FilterValue::Range(_) => true,
            _ => false,
        }
    }

    /// The text of the value: a text itself, a number in decimal, a list
    /// joined by `,`, a range as its two ends joined by `-`. The text of a
    /// double is not produced here.
    pub open spec fn text(self) -> Result<Seq<char>, ValueError> {
        match self {
            FilterValue::Text(s) => Ok(s@),
            FilterValue::Number(n) => n.text(),
            FilterValue::IdList(ids) => Ok(joined(ids@)),
            FilterValue::Range((start, end)) => match (start.text(), end.text()) {
                (Ok(a), Ok(b)) => Ok(a + seq!['-'] + b),
                _ => Err(ValueError::NotImplemented),
            },
        }
    }

    /// The text of the value; it fails with `NotImplemented` where a double
    /// would have to be written.
    pub fn to_text(&self) -> (r: Result<String, ValueError>)
        ensures
            match r {
                Ok(s) => self.text() == Ok::<Seq<char>, ValueError>(s@),
                Err(e) => self.text() == Err::<Seq<char>, ValueError>(e),
            },
    {
        match self {
            FilterValue::Text(s) => Ok(s.clone()),
            FilterValue::Number(n) => n.to_text(),
            FilterValue::IdList(ids) => {
                let mut out = String::new();
                let mut i: usize = 0;
                while i < ids.len()
                    invariant
                        i <= ids.len(),
                        out@ == joined(ids@.take(i as int)),
                    decreases ids.len() - i,
                {
                    let ghost before = out@;
                    if i > 0 {
                        out.push(',');
                    }
                    out.append(ids[i].as_str());
                    proof {
                        let next = ids@.take(i + 1);
                        assert(next.drop_last() =~= ids@.take(i as int));
                        assert(next.last() == ids@[i as int]);
                        if i == 0 {
                            assert(out@ =~= ids@[0]@);
                        } else {
                            assert(out@ =~= before + seq![','] + ids@[i as int]@);
                        }
                    }
                    i += 1;
                }
                assert(ids@.take(ids@.len() as int) =~= ids@);
                assert(out@ == joined(ids@));
                Ok(out)
            },
            FilterValue::Range(ends) => {
                let start = ends.0.to_text();
                let end = ends.1.to_text();
                match (start, end) {
                    (Ok(a), Ok(b)) => {
                        let ghost first = a@;
                        let mut out = a;
                        out.push('-');
                        out.append(b.as_str());
                        assert(out@ =~= first + seq!['-'] + b@);
                        Ok(out)
                    },
                    _ => Err(ValueError::NotImplemented),
                }
            },
        }
    }
}

} // verus!
