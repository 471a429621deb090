//! Queries on the compiler's arenas: following deferred types to the type they stand for, and
//! reading the definitions, types, owners and scopes that symbols lead to.
use vstd::prelude::*;
use crate::directives::DirectiveInline;
use crate::hir::{
    AliasDef, EnumDef, FuncDef, StructDef, SymbolKind, SymbolOrigin, Type, TypeDef, TypeInfo,
    VarDef, VariableState,
};
use crate::ids::{ModuleId, ScopeId, SymbolId, TypeId};
use crate::scopes::{ScopeInfo, ScopeType};
use crate::script_compiler::ScriptCompiler;
use crate::typechecker_concepts::TypeKind;

verus! {

/// Following deferred types from `id`, at most `fuel` times, stays inside the table and ends on a
/// type that is not deferred.
pub open spec fn deferred_resolves(types: Seq<TypeInfo>, id: int, fuel: nat) -> bool
    decreases fuel,
{
    &&& 0 <= id < types.len()
    &&& match types[id].ty {
        Type::Deferred(next) => fuel > 0 && deferred_resolves(types, next as int, (fuel - 1) as nat),
        _ => true,
    }
}

/// Where following deferred types from `id`, at most `fuel` times, ends.
pub open spec fn walk_deferred(types: Seq<TypeInfo>, id: int, fuel: nat) -> int
    decreases fuel,
{
    if fuel == 0 || !(0 <= id < types.len()) {
        id
    } else {
        match types[id].ty {
            Type::Deferred(next) => walk_deferred(types, next as int, (fuel - 1) as nat),
            _ => id,
        }
    }
}

/// Type `id` stands for a type of the table: its chain of deferred types ends. A chain without a
/// cycle is never longer than the table.
pub open spec fn type_resolves(types: Seq<TypeInfo>, id: int) -> bool {
    deferred_resolves(types, id, types.len() as nat)
}

/// The type that type `id` stands for.
pub open spec fn resolved_type(types: Seq<TypeInfo>, id: int) -> int {
    walk_deferred(types, id, types.len() as nat)
}

/// The kind of a type that is not deferred.
pub open spec fn spec_type_kind(ty: Type) -> TypeKind {
    match ty {
        Type::BuiltinTypeInfo(_) => TypeKind::Builtin,
        Type::Struct(_) => TypeKind::Struct,
        Type::Enum(_) => TypeKind::Enum,
        Type::Func(_) => TypeKind::Func,
        Type::Alias(_) => TypeKind::Alias,
        Type::TypeDef(_) => TypeKind::TypeDef,
        Type::Boundaries(_) => TypeKind::Boundaries,
        _ => TypeKind::Unknown,
    }
}

/// Each kind of type has its own like-named kind: a built-in is `Builtin`, a struct `Struct`, an
/// enum `Enum`, and so on, and no two kinds of type share one; only an unknown type (and a deferral,
/// which kinds never see once followed) is `Unknown`.
pub proof fn lemma_type_kind_of(ty: Type)
    ensures
        ty is BuiltinTypeInfo <==> spec_type_kind(ty) == TypeKind::Builtin,
        ty is Struct <==> spec_type_kind(ty) == TypeKind::Struct,
        ty is Enum <==> spec_type_kind(ty) == TypeKind::Enum,
        ty is Func <==> spec_type_kind(ty) == TypeKind::Func,
        ty is Alias <==> spec_type_kind(ty) == TypeKind::Alias,
        ty is TypeDef <==> spec_type_kind(ty) == TypeKind::TypeDef,
        ty is Boundaries <==> spec_type_kind(ty) == TypeKind::Boundaries,
        (ty is Unknown || ty is Deferred) <==> spec_type_kind(ty) == TypeKind::Unknown,
{
}

/// The symbol that names a type, for the types that have one.
pub open spec fn spec_type_symbol(ty: Type) -> Option<SymbolId> {
    match ty {
        Type::Struct(d) => Some(d.sym_id),
        Type::Enum(d) => Some(d.sym_id),
        Type::Func(d) => Some(d.self_id),
        Type::Alias(d) => Some(d.sym_id),
        Type::TypeDef(d) => Some(d.sym_id),
        Type::BuiltinTypeInfo(info) => Some(info.sym_id),
        _ => None,
    }
}

/// Follows deferred types from `type_id` to the type it stands for.
pub fn walk_type_id_deferred(types: &Vec<TypeInfo>, type_id: TypeId) -> (res: TypeId)
    requires
        type_resolves(types@, type_id as int),
    ensures
        res as int == resolved_type(types@, type_id as int),
        res < types.len(),
        types@[res as int].ty !is Deferred,
{
    let mut current = type_id;
    let mut fuel: usize = types.len();
    loop
        invariant
            fuel <= types.len(),
            deferred_resolves(types@, current as int, fuel as nat),
            walk_deferred(types@, current as int, fuel as nat) == resolved_type(types@, type_id as int),
        decreases fuel,
    {
        match types[current as usize].ty {
            Type::Deferred(next) => {
                current = next;
                fuel -= 1;
            },
            _ => {
                return current;
            },
        }
    }
}

impl ScriptCompiler {
    /// The type a type or variable symbol carries: a type's own, or a variable's reserved or
    /// known type. Other symbols carry none.
    pub open spec fn spec_symbol_type(&self, sym_id: int) -> Option<TypeId> {
        match self.syms@[sym_id].kind {
            SymbolKind::Type(type_id) => Some(type_id),
            SymbolKind::Variable(var_id) => match self.variables@[var_id as int].state {
                VariableState::ReservedTypeSlot(type_id) => Some(type_id),
                VariableState::Known(val_id) => Some(self.values@[val_id as int].type_id),
            },
            _ => None,
        }
    }

    /// Symbol `sym_id` exists, and the variable it holds, if any, leads to a value of the arenas.
    pub open spec fn symbol_valid(&self, sym_id: int) -> bool {
        &&& 0 <= sym_id < self.syms.len()
        &&& self.syms@[sym_id].kind matches SymbolKind::Variable(var_id) ==> {
            &&& var_id < self.variables.len()
            &&& self.variables@[var_id as int].state matches VariableState::Known(val_id) ==> val_id
                < self.values.len()
        }
    }

    /// Symbol `sym_id` names type `type_id` of the table, which is what `is_ty` says.
    pub open spec fn symbol_names_type(&self, sym_id: int) -> bool {
        &&& 0 <= sym_id < self.syms.len()
        &&& self.syms@[sym_id].kind matches SymbolKind::Type(type_id)
        &&& type_id < self.types.len()
    }

    /// The type symbol `sym_id` names.
    pub open spec fn named_type(&self, sym_id: int) -> Type {
        self.types@[self.syms@[sym_id].kind->Type_0 as int].ty
    }

    /// The `TypeId` a type symbol names.
    fn type_of_type_symbol(&self, sym_id: SymbolId) -> (res: TypeId)
        requires
            self.symbol_names_type(sym_id as int),
        ensures
            res == self.syms@[sym_id as int].kind->Type_0,
            res < self.types.len(),
    {
        match self.syms[sym_id as usize].kind {
            SymbolKind::Type(type_id) => type_id,
            _ => vstd::pervasive::unreached(),
        }
    }

    /// Extracts the struct represented by `sym_id`.
    pub fn get_struct(&self, sym_id: SymbolId) -> (res: &StructDef)
        requires
            self.symbol_names_type(sym_id as int),
            self.named_type(sym_id as int) is Struct,
        ensures
            *res == self.named_type(sym_id as int)->Struct_0,
    {
        let type_id = self.type_of_type_symbol(sym_id);
        match &self.types[type_id as usize].ty {
            Type::Struct(struct_def) => struct_def,
            _ => vstd::pervasive::unreached(),
        }
    }

    /// Everything but the type `t` is as in `old`, and that type keeps its owner.
    pub open spec fn only_type_changed(&self, old: &ScriptCompiler, t: int) -> bool {
        &&& self.types.len() == old.types.len()
        &&& forall|k: int| 0 <= k < self.types.len() && k != t ==> #[trigger] self.types@[k] == old.types@[k]
        &&& self.types@[t].owner == old.types@[t].owner
        &&& self.mods == old.mods
        &&& self.syms == old.syms
        &&& self.variables == old.variables
        &&& self.values == old.values
        &&& self.exprs == old.exprs
        &&& self.directives == old.directives
        &&& self.scopes == old.scopes
        &&& self.intrinsic_registry == old.intrinsic_registry
        &&& self.resolver_state == old.resolver_state
        &&& self.bind == old.bind
    }

    /// The struct represented by `sym_id`, to change in place.
    pub fn get_struct_mut(&mut self, sym_id: SymbolId) -> (res: &mut StructDef)
        requires
            old(self).symbol_names_type(sym_id as int),
            old(self).named_type(sym_id as int) is Struct,
        ensures
            *res == old(self).named_type(sym_id as int)->Struct_0,
            final(self).only_type_changed(old(self), old(self).syms@[sym_id as int].kind->Type_0 as int),
            final(self).named_type(sym_id as int) == Type::Struct(*final(res)),
    {
        let type_id = self.type_of_type_symbol(sym_id);
        match &mut self.types[type_id as usize].ty {
            Type::Struct(struct_def) => struct_def,
            _ => vstd::pervasive::unreached(),
        }
    }

    /// The enum represented by `sym_id`, to change in place.
    pub fn get_enum_mut(&mut self, sym_id: SymbolId) -> (res: &mut EnumDef)
        requires
            old(self).symbol_names_type(sym_id as int),
            old(self).named_type(sym_id as int) is Enum,
        ensures
            *res == old(self).named_type(sym_id as int)->Enum_0,
            final(self).only_type_changed(old(self), old(self).syms@[sym_id as int].kind->Type_0 as int),
            final(self).named_type(sym_id as int) == Type::Enum(*final(res)),
    {
        let type_id = self.type_of_type_symbol(sym_id);
        match &mut self.types[type_id as usize].ty {
            Type::Enum(def) => def,
            _ => vstd::pervasive::unreached(),
        }
    }

    /// The alias represented by `sym_id`, to change in place.
    pub fn get_alias_mut(&mut self, sym_id: SymbolId) -> (res: &mut AliasDef)
        requires
            old(self).symbol_names_type(sym_id as int),
            old(self).named_type(sym_id as int) is Alias,
        ensures
            *res == old(self).named_type(sym_id as int)->Alias_0,
            final(self).only_type_changed(old(self), old(self).syms@[sym_id as int].kind->Type_0 as int),
            final(self).named_type(sym_id as int) == Type::Alias(*final(res)),
    {
        let type_id = self.type_of_type_symbol(sym_id);
        match &mut self.types[type_id as usize].ty {
            Type::Alias(def) => def,
            _ => vstd::pervasive::unreached(),
        }
    }

    /// The typedef represented by `sym_id`, to change in place.
    pub fn get_typedef_mut(&mut self, sym_id: SymbolId) -> (res: &mut TypeDef)
        requires
            old(self).symbol_names_type(sym_id as int),
            old(self).named_type(sym_id as int) is TypeDef,
        ensures
            *res == old(self).named_type(sym_id as int)->TypeDef_0,
            final(self).only_type_changed(old(self), old(self).syms@[sym_id as int].kind->Type_0 as int),
            final(self).named_type(sym_id as int) == Type::TypeDef(*final(res)),
    {
        let type_id = self.type_of_type_symbol(sym_id);
        match &mut self.types[type_id as usize].ty {
            Type::TypeDef(def) => def,
            _ => vstd::pervasive::unreached(),
        }
    }

    /// The function represented by `sym_id`, to change in place.
    pub fn get_func_mut(&mut self, sym_id: SymbolId) -> (res: &mut FuncDef)
        requires
            old(self).symbol_names_type(sym_id as int),
            old(self).named_type(sym_id as int) is Func,
        ensures
            *res == old(self).named_type(sym_id as int)->Func_0,
            final(self).only_type_changed(old(self), old(self).syms@[sym_id as int].kind->Type_0 as int),
            final(self).named_type(sym_id as int) == Type::Func(*final(res)),
    {
        let type_id = self.type_of_type_symbol(sym_id);
        match &mut self.types[type_id as usize].ty {
            Type::Func(def) => def,
            _ => vstd::pervasive::unreached(),
        }
    }

    /// The variable a variable symbol holds, to change in place.
    pub fn get_var_mut(&mut self, sym_id: SymbolId) -> (res: &mut VarDef)
        requires
            sym_id < old(self).syms.len(),
            old(self).syms@[sym_id as int].kind matches SymbolKind::Variable(var_id) && var_id < old(self).variables.len(),
        ensures
            *res == old(self).variables@[old(self).syms@[sym_id as int].kind->Variable_0 as int],
            final(self).variables@ == old(self).variables@.update(
                old(self).syms@[sym_id as int].kind->Variable_0 as int,
                *final(res),
            ),
            final(self).types == old(self).types,
            final(self).mods == old(self).mods,
            final(self).syms == old(self).syms,
            final(self).values == old(self).values,
            final(self).exprs == old(self).exprs,
            final(self).directives == old(self).directives,
            final(self).scopes == old(self).scopes,
            final(self).intrinsic_registry == old(self).intrinsic_registry,
            final(self).resolver_state == old(self).resolver_state,
            final(self).bind == old(self).bind,
    {
        match self.syms[sym_id as usize].kind {
            SymbolKind::Variable(var_id) => &mut self.variables[var_id as usize],
            _ => vstd::pervasive::unreached(),
        }
    }

    /// Extracts the enum represented by `sym_id`.
    pub fn get_enum(&self, sym_id: SymbolId) -> (res: &EnumDef)
        requires
            self.symbol_names_type(sym_id as int),
            self.named_type(sym_id as int) is Enum,
        ensures
            *res == self.named_type(sym_id as int)->Enum_0,
    {
        let type_id = self.type_of_type_symbol(sym_id);
        match &self.types[type_id as usize].ty {
            Type::Enum(enum_def) => enum_def,
            _ => vstd::pervasive::unreached(),
        }
    }

    /// Extracts the alias represented by `sym_id`.
    pub fn get_alias(&self, sym_id: SymbolId) -> (res: &AliasDef)
        requires
            self.symbol_names_type(sym_id as int),
            self.named_type(sym_id as int) is Alias,
        ensures
            *res == self.named_type(sym_id as int)->Alias_0,
    {
        let type_id = self.type_of_type_symbol(sym_id);
        match &self.types[type_id as usize].ty {
            Type::Alias(alias_def) => alias_def,
            _ => vstd::pervasive::unreached(),
        }
    }

    /// Extracts the typedef represented by `sym_id`.
    pub fn get_typedef(&self, sym_id: SymbolId) -> (res: &TypeDef)
        requires
            self.symbol_names_type(sym_id as int),
            self.named_type(sym_id as int) is TypeDef,
        ensures
            *res == self.named_type(sym_id as int)->TypeDef_0,
    {
        let type_id = self.type_of_type_symbol(sym_id);
        match &self.types[type_id as usize].ty {
            Type::TypeDef(type_def) => type_def,
            _ => vstd::pervasive::unreached(),
        }
    }

    /// Extracts the function represented by `sym_id`.
    pub fn get_func(&self, sym_id: SymbolId) -> (res: &FuncDef)
        requires
            self.symbol_names_type(sym_id as int),
            self.named_type(sym_id as int) is Func,
        ensures
            *res == self.named_type(sym_id as int)->Func_0,
    {
        let type_id = self.type_of_type_symbol(sym_id);
        match &self.types[type_id as usize].ty {
            Type::Func(func_def) => func_def,
            _ => vstd::pervasive::unreached(),
        }
    }

    /// The variable a variable symbol holds.
    pub fn get_var(&self, sym_id: SymbolId) -> (res: &VarDef)
        requires
            sym_id < self.syms.len(),
            self.syms@[sym_id as int].kind matches SymbolKind::Variable(var_id) && var_id < self.variables.len(),
        ensures
            *res == self.variables@[self.syms@[sym_id as int].kind->Variable_0 as int],
    {
        match self.syms[sym_id as usize].kind {
            SymbolKind::Variable(var_id) => &self.variables[var_id as usize],
            _ => vstd::pervasive::unreached(),
        }
    }

    /// The directive a directive symbol names.
    pub fn get_directive(&self, sym_id: SymbolId) -> (res: &DirectiveInline)
        requires
            sym_id < self.syms.len(),
            self.syms@[sym_id as int].kind matches SymbolKind::Directive(id) && id < self.directives.len(),
        ensures
            *res == self.directives@[self.syms@[sym_id as int].kind->Directive_0 as int],
    {
        match self.syms[sym_id as usize].kind {
            SymbolKind::Directive(directive_id) => &self.directives[directive_id as usize],
            _ => vstd::pervasive::unreached(),
        }
    }

    /// Extracts the type attached to a type or variable symbol.
    pub fn extract_type_id(&self, sym_id: SymbolId) -> (res: TypeId)
        requires
            self.symbol_valid(sym_id as int),
            self.spec_symbol_type(sym_id as int) is Some,
        ensures
            self.spec_symbol_type(sym_id as int) == Some(res),
    {
        match self.get_type_id_from_sym_id(sym_id) {
            Some(type_id) => type_id,
            None => vstd::pervasive::unreached(),
        }
    }

    /// The type a type or variable symbol carries, if it carries one.
    pub fn get_type_id_from_sym_id(&self, sym_id: SymbolId) -> (res: Option<TypeId>)
        requires
            self.symbol_valid(sym_id as int),
        ensures
            res == self.spec_symbol_type(sym_id as int),
    {
        match self.syms[sym_id as usize].kind {
            SymbolKind::Type(type_id) => Some(type_id),
            SymbolKind::Variable(var_id) => match self.variables[var_id as usize].state {
                VariableState::ReservedTypeSlot(type_id) => Some(type_id),
                VariableState::Known(val_id) => Some(self.values[val_id as usize].type_id),
            },
            SymbolKind::ExternType(_) | SymbolKind::Directive(_) | SymbolKind::Namespace => None,
        }
    }

    /// The symbol that names the type `type_id` stands for; boundaries and the unknown type have
    /// none.
    pub fn get_sym_id_from_type_id(&self, type_id: TypeId) -> (res: Option<SymbolId>)
        requires
            type_resolves(self.types@, type_id as int),
        ensures
            res == spec_type_symbol(self.types@[resolved_type(self.types@, type_id as int)].ty),
    {
        let checked = walk_type_id_deferred(&self.types, type_id);
        match &self.types[checked as usize].ty {
            Type::Struct(struct_def) => Some(struct_def.sym_id),
            Type::Enum(enum_def) => Some(enum_def.sym_id),
            Type::Func(func_def) => Some(func_def.self_id),
            Type::Alias(alias_def) => Some(alias_def.sym_id),
            Type::TypeDef(type_def) => Some(type_def.sym_id),
            Type::BuiltinTypeInfo(info) => Some(info.sym_id),
            Type::Boundaries(_) | Type::Unknown => None,
            Type::Deferred(_) => vstd::pervasive::unreached(),
        }
    }

    /// Returns `true` if the type `type_id` stands for is a built-in type, `false` otherwise.
    pub fn check_builtin(&self, type_id: TypeId) -> (res: bool)
        requires
            type_resolves(self.types@, type_id as int),
        ensures
            res == self.types@[resolved_type(self.types@, type_id as int)].ty is BuiltinTypeInfo,
    {
        let checked = walk_type_id_deferred(&self.types, type_id);
        match &self.types[checked as usize].ty {
            Type::BuiltinTypeInfo(_) => true,
            Type::Struct(_)
            | Type::Enum(_)
            | Type::Func(_)
            | Type::Alias(_)
            | Type::TypeDef(_)
            | Type::Boundaries(_)
            | Type::Unknown => false,
            Type::Deferred(_) => vstd::pervasive::unreached(),
        }
    }

    /// Returns `true` if the type `type_id` stands for is unknown, `false` otherwise.
    pub fn check_unknown(&self, type_id: TypeId) -> (res: bool)
        requires
            type_resolves(self.types@, type_id as int),
        ensures
            res == self.types@[resolved_type(self.types@, type_id as int)].ty is Unknown,
    {
        let checked = walk_type_id_deferred(&self.types, type_id);
        match self.types[checked as usize].ty {
            Type::Unknown => true,
            _ => false,
        }
    }

    /// The module a symbol belongs to; compiler symbols belong to core.
    pub fn get_owner(&self, sym_id: SymbolId) -> (res: ModuleId)
        requires
            sym_id < self.syms.len(),
        ensures
            res == match self.syms@[sym_id as int].sym_origin {
                SymbolOrigin::Module(mod_id) => mod_id,
                SymbolOrigin::Compiler => self.intrinsic_registry.core_mod_id,
            },
    {
        match self.syms[sym_id as usize].sym_origin {
            SymbolOrigin::Module(mod_id) => mod_id,
            SymbolOrigin::Compiler => self.intrinsic_registry.core_mod_id,
        }
    }

    /// The `ScopeId` of module `owner`'s first scope of section `scope_type`, if it has one.
    pub fn get_scope_id(&self, scope_type: ScopeType, owner: ModuleId) -> (res: Option<ScopeId>)
        requires
            owner < self.mods.len(),
            self.module_scopes_valid(),
        ensures
            res == match self.spec_find_scope(scope_type, owner as int) {
                Some(id) => Some(self.scopes@[id as int].scope.scope_id),
                None => None,
            },
    {
        match self.find_scope_in_mod(scope_type, owner) {
            Some(id) => Some(self.scopes[id as usize].scope.scope_id),
            None => None,
        }
    }

    /// The `ScopeId` of module `owner_id`'s first scope of section `scope_type`, which must exist:
    /// the parser already checked that the section is legal where it appears.
    pub fn extract_scope_id(&self, scope_type: ScopeType, owner_id: ModuleId) -> (res: ScopeId)
        requires
            owner_id < self.mods.len(),
            self.module_scopes_valid(),
            self.spec_find_scope(scope_type, owner_id as int) is Some,
        ensures
            res == self.scopes@[self.spec_find_scope(scope_type, owner_id as int)->Some_0 as int].scope.scope_id,
    {
        match self.get_scope_id(scope_type, owner_id) {
            Some(id) => id,
            None => vstd::pervasive::unreached(),
        }
    }

    /// The scope `scope_id` names.
    pub fn get_scope(&self, scope_id: ScopeId) -> (res: &ScopeInfo)
        requires
            scope_id < self.scopes.len(),
        ensures
            *res == self.scopes@[scope_id as int],
    {
        &self.scopes[scope_id as usize]
    }

    /// The scope `scope_id` names, to change in place.
    pub fn get_scope_mut(&mut self, scope_id: ScopeId) -> (res: &mut ScopeInfo)
        requires
            scope_id < old(self).scopes.len(),
        ensures
            *res == old(self).scopes@[scope_id as int],
            final(self).scopes@ == old(self).scopes@.update(scope_id as int, *final(res)),
            final(self).mods == old(self).mods,
            final(self).types == old(self).types,
            final(self).syms == old(self).syms,
            final(self).variables == old(self).variables,
            final(self).values == old(self).values,
            final(self).exprs == old(self).exprs,
            final(self).directives == old(self).directives,
            final(self).intrinsic_registry == old(self).intrinsic_registry,
            final(self).resolver_state == old(self).resolver_state,
            final(self).bind == old(self).bind,
    {
        &mut self.scopes[scope_id as usize]
    }
}

impl Type {
    /// The kind of the type `type_id` stands for.
    pub fn kind(compiler: &ScriptCompiler, type_id: TypeId) -> (res: TypeKind)
        requires
            type_resolves(compiler.types@, type_id as int),
        ensures
            res == spec_type_kind(compiler.types@[resolved_type(compiler.types@, type_id as int)].ty),
            ({
                let ty = compiler.types@[resolved_type(compiler.types@, type_id as int)].ty;
                &&& ty is BuiltinTypeInfo <==> res == TypeKind::Builtin
                &&& ty is Struct <==> res == TypeKind::Struct
                &&& ty is Enum <==> res == TypeKind::Enum
                &&& ty is Func <==> res == TypeKind::Func
                &&& ty is Alias <==> res == TypeKind::Alias
                &&& ty is TypeDef <==> res == TypeKind::TypeDef
                &&& ty is Boundaries <==> res == TypeKind::Boundaries
                &&& ty is Unknown <==> res == TypeKind::Unknown
            }),
    {
        let checked = walk_type_id_deferred(&compiler.types, type_id);
        match &compiler.types[checked as usize].ty {
            Type::BuiltinTypeInfo(_) => TypeKind::Builtin,
            Type::Struct(_) => TypeKind::Struct,
            Type::Enum(_) => TypeKind::Enum,
            Type::Func(_) => TypeKind::Func,
            Type::Alias(_) => TypeKind::Alias,
            Type::TypeDef(_) => TypeKind::TypeDef,
            Type::Boundaries(_) => TypeKind::Boundaries,
            Type::Unknown => TypeKind::Unknown,
            Type::Deferred(_) => vstd::pervasive::unreached(),
        }
    }
}

} // verus!
