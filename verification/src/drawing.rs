//! How a layer is drawn: renderer, symbols and their materials.

use vstd::prelude::*;

verus! {

#[derive(Debug, Clone)]
pub struct CachedDrawingInfo {
    pub color: bool,
}

impl CachedDrawingInfo {
    /// Every field has the value that a record starts from.
    pub open spec fn is_default(&self) -> bool {
        &&& !self.color
    }
}

impl Default for CachedDrawingInfo {
    fn default() -> (r: Self)
        ensures
            r.is_default(),
    {
        Self {
            color: false,
        }
    }
}

/// Colour and transparency of a symbol layer.
#[derive(Debug, Clone)]
pub struct Material {
    pub color: Option<Vec<i32>>,
    pub transparency: Option<i32>,
}

impl Material {
    /// Every field has the value that a record starts from.
    pub open spec fn is_default(&self) -> bool {
        &&& self.color is None
        &&& self.transparency is None
    }
}

impl Default for Material {
    fn default() -> (r: Self)
        ensures
            r.is_default(),
    {
        Self {
            color: None,
            transparency: None,
        }
    }
}

#[derive(Debug, Clone)]
pub struct SymbolLayer {
    pub symbol_layer_type: String,
    pub material: Option<Material>,
}

impl SymbolLayer {
    /// Every field has the value that a record starts from.
    pub open spec fn is_default(&self) -> bool {
        &&& self.symbol_layer_type@ == Seq::<char>::empty()
        &&& self.material is None
    }
}

impl Default for SymbolLayer {
    fn default() -> (r: Self)
        ensures
            r.is_default(),
    {
        Self {
            symbol_layer_type: String::new(),
            material: None,
        }
    }
}

#[derive(Debug, Clone)]
pub struct Symbol {
    pub symbol_type: String,
    pub symbol_layers: Option<Vec<SymbolLayer>>,
}

impl Symbol {
    /// Every field has the value that a record starts from.
    pub open spec fn is_default(&self) -> bool {
        &&& self.symbol_type@ == Seq::<char>::empty()
        &&& self.symbol_layers is None
    }
}

impl Default for Symbol {
    fn default() -> (r: Self)
        ensures
            r.is_default(),
    {
        Self {
            symbol_type: String::new(),
            symbol_layers: None,
        }
    }
}

#[derive(Debug, Clone)]
pub struct Renderer {
    pub renderer_type: String,
    pub label: String,
    pub description: String,
    pub symbol: Option<Symbol>,
}

impl Renderer {
    /// Every field has the value that a record starts from.
    pub open spec fn is_default(&self) -> bool {
        &&& self.renderer_type@ == Seq::<char>::empty()
        &&& self.label@ == Seq::<char>::empty()
        &&& self.description@ == Seq::<char>::empty()
        &&& self.symbol is None
    }
}

impl Default for Renderer {
    fn default() -> (r: Self)
        ensures
            r.is_default(),
    {
        Self {
            renderer_type: String::new(),
            label: String::new(),
            description: String::new(),
            symbol: None,
        }
    }
}

#[derive(Debug, Clone)]
pub struct DrawingInfo {
    pub renderer: Renderer,
    pub scale_symbols: Option<bool>,
}

impl DrawingInfo {
    /// Every field has the value that a record starts from.
    pub open spec fn is_default(&self) -> bool {
        &&& self.renderer.is_default()
        &&& self.scale_symbols is None
    }
}

impl Default for DrawingInfo {
    fn default() -> (r: Self)
        ensures
            r.is_default(),
    {
        Self {
            renderer: Renderer::default(),
            scale_symbols: None,
        }
    }
}

} // verus!
