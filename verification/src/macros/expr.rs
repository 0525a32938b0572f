//! The expression tree that macro expanders read and build.
use vstd::prelude::*;
use crate::values::Constant;

verus! {

/// A node of a CEL expression tree: an id, by which the node is traced back to
/// its place in the source, and a kind, which is unset for an unspecified
/// expression.
#[derive(Debug)]
pub struct Expr {
    id: i64,
    kind: Option<Box<ExprKind>>,
}

impl Expr {
    /// The id of this node.
    pub closed spec fn spec_id(&self) -> i64 {
        self.id
    }

    /// The kind of this node, where it is set.
    pub closed spec fn spec_kind(&self) -> Option<ExprKind> {
        match self.kind {
            Some(k) => Some(*k),
            None => None,
        }
    }

    /// Returns the id.
    pub fn id(&self) -> (r: i64)
        ensures
            r == self.spec_id(),
    {
        self.id
    }

    /// Sets the id, leaving the kind as it is.
    pub fn set_id(&mut self, id: i64)
        ensures
            final(self).spec_id() == id,
            final(self).spec_kind() == old(self).spec_kind(),
    {
        self.id = id;
    }

    /// Returns the kind, or `None` for an unspecified expression.
    pub fn kind(&self) -> (r: Option<&ExprKind>)
        ensures
            match self.spec_kind() {
                Some(k) => r == Some(&k),
                None => r.is_none(),
            },
    {
        match &self.kind {
            Some(k) => Some(&**k),
            None => None,
        }
    }

    /// Sets the kind, replacing any kind there was; the id is kept.
    pub fn set_kind(&mut self, kind: ExprKind)
        ensures
            final(self).spec_id() == old(self).spec_id(),
            final(self).spec_kind() == Some(kind),
    {
        self.kind = Some(Box::new(kind));
    }

    /// Clears the kind, making this an unspecified expression; the id is kept.
    pub fn clear_kind(&mut self)
        ensures
            final(self).spec_id() == old(self).spec_id(),
            final(self).spec_kind().is_none(),
    {
        self.kind = None;
    }
}

impl Default for Expr {
    /// An unspecified expression of id 0.
    fn default() -> (r: Self)
        ensures
            r.spec_id() == 0,
            r.spec_kind().is_none(),
    {
        Expr { id: 0, kind: None }
    }
}

/// The kind of an expression node.
#[derive(Debug)]
pub enum ExprKind {
    /// A constant literal.
    Constant(Constant),
    /// An identifier.
    Ident(IdentExpr),
    /// A field selection or presence test.
    Select(SelectExpr),
    /// A function or method call.
    Call(CallExpr),
    /// A list literal.
    List(ListExpr),
    /// A struct literal.
    Struct(StructExpr),
    /// A map literal.
    Mapping(MapExpr),
    /// A comprehension.
    Comprehension(ComprehensionExpr),
}

impl ExprKind {
    /// Returns whether this is a constant literal.
    pub fn is_constant(&self) -> (r: bool)
        ensures
            r == self is Constant,
    {
        match self {
            ExprKind::Constant(_) => true,
            _ => false,
        }
    }

    /// Returns whether this is an identifier.
    pub fn is_ident(&self) -> (r: bool)
        ensures
            r == self is Ident,
    {
        match self {
            ExprKind::Ident(_) => true,
            _ => false,
        }
    }

    /// Returns whether this is a field selection or presence test.
    pub fn is_select(&self) -> (r: bool)
        ensures
            r == self is Select,
    {
        match self {
            ExprKind::Select(_) => true,
            _ => false,
        }
    }

    /// Returns whether this is a function or method call.
    pub fn is_call(&self) -> (r: bool)
        ensures
            r == self is Call,
    {
        match self {
            ExprKind::Call(_) => true,
            _ => false,
        }
    }

    /// Returns whether this is a list literal.
    pub fn is_list(&self) -> (r: bool)
        ensures
            r == self is List,
    {
        match self {
            ExprKind::List(_) => true,
            _ => false,
        }
    }

    /// Returns whether this is a struct literal.
    pub fn is_struct(&self) -> (r: bool)
        ensures
            r == self is Struct,
    {
        match self {
            ExprKind::Struct(_) => true,
            _ => false,
        }
    }

    /// Returns whether this is a map literal.
    pub fn is_map(&self) -> (r: bool)
        ensures
            r == self is Mapping,
    {
        match self {
            ExprKind::Mapping(_) => true,
            _ => false,
        }
    }

    /// Returns whether this is a comprehension.
    pub fn is_comprehension(&self) -> (r: bool)
        ensures
            r == self is Comprehension,
    {
        match self {
            ExprKind::Comprehension(_) => true,
            _ => false,
        }
    }

    /// Returns the constant node, where this is a constant literal.
    pub fn as_constant(&self) -> (r: Option<&Constant>)
        ensures
            match *self {
                ExprKind::Constant(x) => r == Some(&x),
                _ => r.is_none(),
            },
    {
        match self {
            ExprKind::Constant(x) => Some(x),
            _ => None,
        }
    }

    /// Returns the ident node, where this is an identifier.
    pub fn as_ident(&self) -> (r: Option<&IdentExpr>)
        ensures
            match *self {
                ExprKind::Ident(x) => r == Some(&x),
                _ => r.is_none(),
            },
    {
        match self {
            ExprKind::Ident(x) => Some(x),
            _ => None,
        }
    }

    /// Returns the select node, where this is a field selection or presence test.
    pub fn as_select(&self) -> (r: Option<&SelectExpr>)
        ensures
            match *self {
                ExprKind::Select(x) => r == Some(&x),
                _ => r.is_none(),
            },
    {
        match self {
            ExprKind::Select(x) => Some(x),
            _ => None,
        }
    }

    /// Returns the call node, where this is a function or method call.
    pub fn as_call(&self) -> (r: Option<&CallExpr>)
        ensures
            match *self {
                ExprKind::Call(x) => r == Some(&x),
                _ => r.is_none(),
            },
    {
        match self {
            ExprKind::Call(x) => Some(x),
            _ => None,
        }
    }

    /// Returns the list node, where this is a list literal.
    pub fn as_list(&self) -> (r: Option<&ListExpr>)
        ensures
            match *self {
                ExprKind::List(x) => r == Some(&x),
                _ => r.is_none(),
            },
    {
        match self {
            ExprKind::List(x) => Some(x),
            _ => None,
        }
    }

    /// Returns the struct node, where this is a struct literal.
    pub fn as_struct(&self) -> (r: Option<&StructExpr>)
        ensures
            match *self {
                ExprKind::Struct(x) => r == Some(&x),
                _ => r.is_none(),
            },
    {
        match self {
            ExprKind::Struct(x) => Some(x),
            _ => None,
        }
    }

    /// Returns the map node, where this is a map literal.
    pub fn as_map(&self) -> (r: Option<&MapExpr>)
        ensures
            match *self {
                ExprKind::Mapping(x) => r == Some(&x),
                _ => r.is_none(),
            },
    {
        match self {
            ExprKind::Mapping(x) => Some(x),
            _ => None,
        }
    }

    /// Returns the comprehension node, where this is a comprehension.
    pub fn as_comprehension(&self) -> (r: Option<&ComprehensionExpr>)
        ensures
            match *self {
                ExprKind::Comprehension(x) => r == Some(&x),
                _ => r.is_none(),
            },
    {
        match self {
            ExprKind::Comprehension(x) => Some(x),
            _ => None,
        }
    }

    /// Returns the constant node for change, where this is a constant literal.
    pub fn as_constant_mut(&mut self) -> (r: Option<&mut Constant>)
        ensures
            match *old(self) {
                ExprKind::Constant(x) => r matches Some(m) && *m == x && *final(self) == ExprKind::Constant(*final(m)),
                _ => r.is_none() && *final(self) == *old(self),
            },
    {
        match self {
            ExprKind::Constant(x) => Some(x),
            _ => None,
        }
    }

    /// Returns the ident node for change, where this is an identifier.
    pub fn as_ident_mut(&mut self) -> (r: Option<&mut IdentExpr>)
        ensures
            match *old(self) {
                ExprKind::Ident(x) => r matches Some(m) && *m == x && *final(self) == ExprKind::Ident(*final(m)),
                _ => r.is_none() && *final(self) == *old(self),
            },
    {
        match self {
            ExprKind::Ident(x) => Some(x),
            _ => None,
        }
    }

    /// Returns the select node for change, where this is a field selection or presence test.
    pub fn as_select_mut(&mut self) -> (r: Option<&mut SelectExpr>)
        ensures
            match *old(self) {
                ExprKind::Select(x) => r matches Some(m) && *m == x && *final(self) == ExprKind::Select(*final(m)),
                _ => r.is_none() && *final(self) == *old(self),
            },
    {
        match self {
            ExprKind::Select(x) => Some(x),
            _ => None,
        }
    }

    /// Returns the call node for change, where this is a function or method call.
    pub fn as_call_mut(&mut self) -> (r: Option<&mut CallExpr>)
        ensures
            match *old(self) {
                ExprKind::Call(x) => r matches Some(m) && *m == x && *final(self) == ExprKind::Call(*final(m)),
                _ => r.is_none() && *final(self) == *old(self),
            },
    {
        match self {
            ExprKind::Call(x) => Some(x),
            _ => None,
        }
    }

    /// Returns the list node for change, where this is a list literal.
    pub fn as_list_mut(&mut self) -> (r: Option<&mut ListExpr>)
        ensures
            match *old(self) {
                ExprKind::List(x) => r matches Some(m) && *m == x && *final(self) == ExprKind::List(*final(m)),
                _ => r.is_none() && *final(self) == *old(self),
            },
    {
        match self {
            ExprKind::List(x) => Some(x),
            _ => None,
        }
    }

    /// Returns the struct node for change, where this is a struct literal.
    pub fn as_struct_mut(&mut self) -> (r: Option<&mut StructExpr>)
        ensures
            match *old(self) {
                ExprKind::Struct(x) => r matches Some(m) && *m == x && *final(self) == ExprKind::Struct(*final(m)),
                _ => r.is_none() && *final(self) == *old(self),
            },
    {
        match self {
            ExprKind::Struct(x) => Some(x),
            _ => None,
        }
    }

    /// Returns the map node for change, where this is a map literal.
    pub fn as_map_mut(&mut self) -> (r: Option<&mut MapExpr>)
        ensures
            match *old(self) {
                ExprKind::Mapping(x) => r matches Some(m) && *m == x && *final(self) == ExprKind::Mapping(*final(m)),
                _ => r.is_none() && *final(self) == *old(self),
            },
    {
        match self {
            ExprKind::Mapping(x) => Some(x),
            _ => None,
        }
    }

    /// Returns the comprehension node for change, where this is a comprehension.
    pub fn as_comprehension_mut(&mut self) -> (r: Option<&mut ComprehensionExpr>)
        ensures
            match *old(self) {
                ExprKind::Comprehension(x) => r matches Some(m) && *m == x && *final(self) == ExprKind::Comprehension(*final(m)),
                _ => r.is_none() && *final(self) == *old(self),
            },
    {
        match self {
            ExprKind::Comprehension(x) => Some(x),
            _ => None,
        }
    }
}

/// A reference to a variable or constant by name.
#[derive(Debug)]
pub struct IdentExpr {
    /// The name.
    pub name: String,
}

/// A field selection `operand.field`, or, when `test_only` is set, the presence
/// test `has(operand.field)`.
#[derive(Debug)]
pub struct SelectExpr {
    /// The expression selected from.
    pub operand: Expr,
    /// The field name.
    pub field: String,
    /// Whether this is a presence test.
    pub test_only: bool,
}

/// A call of a global function, or, when `target` is specified, of a method.
#[derive(Debug)]
pub struct CallExpr {
    /// The function name.
    pub function: String,
    /// The receiver of a method call; unspecified for a global call.
    pub target: Expr,
    /// The arguments.
    pub args: Vec<Expr>,
}

/// An element of a list literal.
#[derive(Debug)]
pub struct ListExprElement {
    /// The element's expression.
    pub expr: Expr,
    /// Whether the element is left out when its value is undefined.
    pub optional: bool,
}

/// A list literal such as `[1, 2, 3]`.
#[derive(Debug)]
pub struct ListExpr {
    /// The elements.
    pub elements: Vec<ListExprElement>,
}

/// A field of a struct literal.
#[derive(Debug)]
pub struct StructExprField {
    /// The id of the field, for source tracking.
    pub id: i64,
    /// The field name.
    pub name: String,
    /// The field's value.
    pub value: Expr,
    /// Whether the field is left out when its value is undefined.
    pub optional: bool,
}

/// A struct literal such as `Person{name: "Alice"}`.
#[derive(Debug)]
pub struct StructExpr {
    /// The message type name.
    pub name: String,
    /// The fields.
    pub fields: Vec<StructExprField>,
}

/// An entry of a map literal.
#[derive(Debug)]
pub struct MapExprEntry {
    /// The id of the entry, for source tracking.
    pub id: i64,
    /// The key expression.
    pub key: Expr,
    /// The value expression.
    pub value: Expr,
    /// Whether the entry is left out when its key or value is undefined.
    pub optional: bool,
}

/// A map literal such as `{"key": "value"}`.
#[derive(Debug)]
pub struct MapExpr {
    /// The entries.
    pub entries: Vec<MapExprEntry>,
}

/// A comprehension: iteration over `iter_range` with one or two iteration
/// variables, an accumulator initialised by `accu_init`, a loop condition, a
/// loop step and a result.
#[derive(Debug)]
pub struct ComprehensionExpr {
    /// The first iteration variable.
    pub iter_var: String,
    /// The second iteration variable; empty when there is none.
    pub iter_var2: String,
    /// The collection iterated over.
    pub iter_range: Expr,
    /// The accumulator variable.
    pub accu_var: String,
    /// The initial value of the accumulator.
    pub accu_init: Expr,
    /// The condition under which iteration goes on.
    pub loop_condition: Expr,
    /// The new value of the accumulator after each step.
    pub loop_step: Expr,
    /// The result, computed from the accumulator.
    pub result: Expr,
}

} // verus!
