//! Utils for merging layers of config

use vstd::prelude::*;

verus! {

/// `layer` overrides `cur` when it is present.
pub open spec fn val_or<T>(cur: T, layer: Option<T>) -> T {
    match layer {
        Some(v) => v,
        None => cur,
    }
}

/// `layer` overrides `cur` when it is present (both optional).
pub open spec fn opt_or<T>(cur: Option<T>, layer: Option<T>) -> Option<T> {
    match layer {
        Some(v) => Some(v),
        None => cur,
    }
}

/// Trait for merging a new layer of config
pub trait ApplyLayer: Sized {
    /// The much more Option-ridden version of this config
    /// that can be repeatedly layered with options
    type Layer;

    /// The value this config takes once `layer` has been merged into it
    spec fn layered(self, layer: Self::Layer) -> Self;

    /// Merges this value with another layer of itself, preferring the new layer
    fn apply_layer(&mut self, layer: Self::Layer)
        ensures
            *final(self) == old(self).layered(layer),
    ;

    /// Merges this value with another layer of itself, preferring the new layer
    ///
    /// (asymmetric case where the rhs is an Option but we're just A Value)
    fn apply_val_layer(&mut self, layer: Option<Self::Layer>)
        ensures
            *final(self) == match layer {
                Some(l) => old(self).layered(l),
                None => *old(self),
            },
    {
        if let Some(val) = layer {
            self.apply_layer(val);
        }
    }
}

/// The result of merging an `Option<T>` with an optional layer of itself:
/// an absent lhs takes the layer as is, a present one has it applied.
pub open spec fn opt_layered<T: ApplyLayer<Layer = T>>(cur: Option<T>, layer: Option<T>) -> Option<T> {
    match layer {
        Some(val) => match cur {
            Some(this) => Some(this.layered(val)),
            None => Some(val),
        },
        None => cur,
    }
}

/// Extension trait to provide apply_opt_layer
pub trait ApplySelfLayerExt {
    /// inner type
    type Inner;
    /// Merge an `Option<Layer>` with an `Option<Layer>`
    ///
    /// If both are present the rhs is applied to the lhs,
    /// if only the rhs is present it becomes the new value.
    fn apply_opt_layer(&mut self, layer: Option<Self::Inner>);
}

impl<T> ApplySelfLayerExt for Option<T> where T: ApplyLayer<Layer = T> {
    type Inner = T;

    fn apply_opt_layer(&mut self, layer: Option<Self::Inner>)
        ensures
            *final(self) == opt_layered(*old(self), layer),
    {
        if let Some(val) = layer {
            if let Some(this) = self {
                this.apply_layer(val);
            } else {
                *self = Some(val);
            }
        }
    }
}

/// A value or just a boolean
///
/// This allows us to have a simple yes/no version of a config while still
/// allowing for a more advanced version to exist.
#[derive(Debug, Clone)]
pub enum BoolOr<T> {
    /// They gave the simple bool
    Bool(bool),
    /// They gave a more interesting value
    Val(T),
}

/// The result of merging an `Option<T>` with an `Option<BoolOr<Layer>>`,
/// where `dflt` is the value `T` starts from when it gets enabled.
///
/// lhs == Some && rhs == true  = nothing happens
/// lhs == Some && rhs == false = lhs gets set to None
/// lhs == Some && rhs == value = layer gets applied to lhs
/// lhs == None && rhs == true  = lhs gets set to layer default
/// lhs == None && rhs == false = nothing happens
/// lhs == None && rhs == value = lhs gets set to layer default with layer applied
/// rhs = nothing               = we do nothing
pub open spec fn bool_layered<T: ApplyLayer>(
    cur: Option<T>,
    layer: Option<BoolOr<T::Layer>>,
    dflt: T,
) -> Option<T> {
    match layer {
        Some(BoolOr::Val(val)) => match cur {
            Some(this) => Some(this.layered(val)),
            None => Some(dflt.layered(val)),
        },
        Some(BoolOr::Bool(false)) => None,
        Some(BoolOr::Bool(true)) => match cur {
            Some(this) => Some(this),
            None => Some(dflt),
        },
        None => cur,
    }
}

/// Extension trait to provide apply_bool_layer
pub trait ApplyBoolLayerExt {
    /// inner type
    type Inner;
    /// Merge an `Option<Layer>` with an `Option<BoolOr<Layer>>`
    ///
    /// There are 3 cases for the rhs (layer):
    ///
    /// * Some(Val): override; recursively apply_layer
    /// * Some(false): manually disabled; set lhs to None
    /// * Some(true) / None: redundant; do nothing
    ///
    /// There are 2 cases for the lhs (self):
    ///
    /// * Some: still live, can be overriden/merged
    /// * None: permanently disabled, rhs will be ignored
    fn apply_bool_layer(&mut self, layer: Option<BoolOr<Self::Inner>>);
}

/// Whether merging `layer` into `cur` starts from a fresh default value
pub open spec fn bool_layer_needs_default<T, L>(cur: Option<T>, layer: Option<BoolOr<L>>) -> bool {
    cur is None && match layer {
        Some(BoolOr::Val(_)) => true,
        Some(BoolOr::Bool(b)) => b,
        None => false,
    }
}

impl<T> ApplyBoolLayerExt for Option<T> where T: ApplyLayer + Default {
    type Inner = T::Layer;

    /// Apply a layer that can either be a boolean, or a Layer Value (most likely an object).
    ///
    /// See [`bool_layered`][] for the possible cases.
    fn apply_bool_layer(&mut self, layer: Option<BoolOr<Self::Inner>>)
        ensures
            exists|d: T|
                (bool_layer_needs_default(*old(self), layer) ==> call_ensures(T::default, (), d))
                    && *final(self) == bool_layered(*old(self), layer, d),
    {
        let ghost old_self = *self;
        match layer {
            Some(BoolOr::Val(val)) => {
                if let Some(this) = self {
                    this.apply_layer(val);
                    assert(*self == bool_layered(old_self, layer, arbitrary::<T>()));
                } else {
                    let mut t = T::default();
                    let ghost d = t;
                    t.apply_layer(val);
                    *self = Some(t);
                    assert(call_ensures(T::default, (), d) && *self == bool_layered(old_self, layer, d));
                }
            },
            Some(BoolOr::Bool(false)) => {
                // Disable this setting
                *self = None;
                assert(*self == bool_layered(old_self, layer, arbitrary::<T>()));
            },
            Some(BoolOr::Bool(true)) => {
                // Enable if self was previously set to None
                if self.is_none() {
                    let t = T::default();
                    *self = Some(t);
                    assert(call_ensures(T::default, (), t) && *self == bool_layered(old_self, layer, t));
                } else {
                    assert(*self == bool_layered(old_self, layer, arbitrary::<T>()));
                }
            },
            None => {
                assert(*self == bool_layered(old_self, layer, arbitrary::<T>()));
            },
        }
    }
}

/// Extension trait to provide apply_val
pub trait ApplyValExt: Sized {
    /// Merges a `T` with an `Option<T>`
    ///
    /// Overwrites the lhs if the rhs is Some
    fn apply_val(&mut self, layer: Option<Self>)
        ensures
            *final(self) == val_or(*old(self), layer),
    ;
}

impl<T> ApplyValExt for T {
    fn apply_val(&mut self, layer: Option<Self>) {
        if let Some(val) = layer {
            *self = val;
        }
    }
}

/// Extension trait to provide apply_opt
pub trait ApplyOptExt: Sized {
    /// Merges an `Option<T>` with an `Option<T>`
    ///
    /// Overwrites the lhs if the rhs is Some
    fn apply_opt(&mut self, layer: Self);
}

impl<T> ApplyOptExt for Option<T> {
    fn apply_opt(&mut self, layer: Self)
        ensures
            *final(self) == opt_or(*old(self), layer),
    {
        if let Some(val) = layer {
            *self = Some(val);
        }
    }
}

} // verus!
