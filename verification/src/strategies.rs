//! The three concrete strategy builders. Each borrows the enum descriptor,
//! selects one strategy of the shared traversal, and exposes the same
//! `build` entry point.

use vstd::prelude::*;
use crate::builder::EnumVariantOutputData;
use crate::builder::Strategy;
use crate::builder::build;
use crate::builder::spec_variant_constructor;
use crate::builder::spec_variant_pattern;
use crate::model::EnumDescriptor;

verus! {

/// Builds the output data for the reconstruction operation: a concrete
/// instance from a fully dynamic representation.
pub struct FromReflectVariantBuilder<'a> {
    /// The descriptor the traversal runs over.
    pub reflect_enum: &'a EnumDescriptor,
}

impl<'a> FromReflectVariantBuilder<'a> {
    /// Wraps the descriptor for a reconstruction traversal.
    pub fn new(reflect_enum: &'a EnumDescriptor) -> (r: Self)
        ensures
            r.reflect_enum == reflect_enum,
    {
        Self { reflect_enum }
    }

    /// Returns the enum descriptor.
    pub fn reflect_enum(&self) -> (r: &EnumDescriptor)
        ensures
            r == self.reflect_enum,
    {
        self.reflect_enum
    }

    /// Runs the shared traversal under the reconstruction strategy.
    pub fn build(&self, this: &str) -> (r: EnumVariantOutputData)
        ensures
            r.variant_names@.len() == self.reflect_enum.variants@.len(),
            r.variant_patterns@.len() == self.reflect_enum.variants@.len(),
            r.variant_constructors@.len() == self.reflect_enum.variants@.len(),
            forall|k: int|
                0 <= k < self.reflect_enum.variants@.len() ==> (#[trigger] r.variant_names@[k])@
                    == self.reflect_enum.variants@[k].name@,
            forall|k: int|
                0 <= k < self.reflect_enum.variants@.len() ==> (#[trigger] r.variant_patterns@[k])@
                    == spec_variant_pattern(*self.reflect_enum, self.reflect_enum.variants@[k]),
            forall|k: int|
                0 <= k < self.reflect_enum.variants@.len() ==> (
                #[trigger] r.variant_constructors@[k])@ == spec_variant_constructor(
                    Strategy::FromReflect,
                    *self.reflect_enum,
                    this@,
                    self.reflect_enum.variants@[k],
                ),
    {
        build(Strategy::FromReflect, self.reflect_enum, this)
    }
}

/// Builds the output data for the fallible merge-apply operation: a dynamic
/// source merged onto an existing instance, with structured errors.
pub struct TryApplyVariantBuilder<'a> {
    /// The descriptor the traversal runs over.
    pub reflect_enum: &'a EnumDescriptor,
}

impl<'a> TryApplyVariantBuilder<'a> {
    /// Wraps the descriptor for a merge-apply traversal.
    pub fn new(reflect_enum: &'a EnumDescriptor) -> (r: Self)
        ensures
            r.reflect_enum == reflect_enum,
    {
        Self { reflect_enum }
    }

    /// Returns the enum descriptor.
    pub fn reflect_enum(&self) -> (r: &EnumDescriptor)
        ensures
            r == self.reflect_enum,
    {
        self.reflect_enum
    }

    /// Runs the shared traversal under the merge-apply strategy.
    pub fn build(&self, this: &str) -> (r: EnumVariantOutputData)
        ensures
            r.variant_names@.len() == self.reflect_enum.variants@.len(),
            r.variant_patterns@.len() == self.reflect_enum.variants@.len(),
            r.variant_constructors@.len() == self.reflect_enum.variants@.len(),
            forall|k: int|
                0 <= k < self.reflect_enum.variants@.len() ==> (#[trigger] r.variant_names@[k])@
                    == self.reflect_enum.variants@[k].name@,
            forall|k: int|
                0 <= k < self.reflect_enum.variants@.len() ==> (#[trigger] r.variant_patterns@[k])@
                    == spec_variant_pattern(*self.reflect_enum, self.reflect_enum.variants@[k]),
            forall|k: int|
                0 <= k < self.reflect_enum.variants@.len() ==> (
                #[trigger] r.variant_constructors@[k])@ == spec_variant_constructor(
                    Strategy::TryApply,
                    *self.reflect_enum,
                    this@,
                    self.reflect_enum.variants@[k],
                ),
    {
        build(Strategy::TryApply, self.reflect_enum, this)
    }
}

/// Builds the output data for the structural-clone operation: a deep copy
/// honoring each field's clone policy.
pub struct ReflectCloneVariantBuilder<'a> {
    /// The descriptor the traversal runs over.
    pub reflect_enum: &'a EnumDescriptor,
}

impl<'a> ReflectCloneVariantBuilder<'a> {
    /// Wraps the descriptor for a structural-clone traversal.
    pub fn new(reflect_enum: &'a EnumDescriptor) -> (r: Self)
        ensures
            r.reflect_enum == reflect_enum,
    {
        Self { reflect_enum }
    }

    /// Returns the enum descriptor.
    pub fn reflect_enum(&self) -> (r: &EnumDescriptor)
        ensures
            r == self.reflect_enum,
    {
        self.reflect_enum
    }

    /// Runs the shared traversal under the structural-clone strategy.
    pub fn build(&self, this: &str) -> (r: EnumVariantOutputData)
        ensures
            r.variant_names@.len() == self.reflect_enum.variants@.len(),
            r.variant_patterns@.len() == self.reflect_enum.variants@.len(),
            r.variant_constructors@.len() == self.reflect_enum.variants@.len(),
            forall|k: int|
                0 <= k < self.reflect_enum.variants@.len() ==> (#[trigger] r.variant_names@[k])@
                    == self.reflect_enum.variants@[k].name@,
            forall|k: int|
                0 <= k < self.reflect_enum.variants@.len() ==> (#[trigger] r.variant_patterns@[k])@
                    == spec_variant_pattern(*self.reflect_enum, self.reflect_enum.variants@[k]),
            forall|k: int|
                0 <= k < self.reflect_enum.variants@.len() ==> (
                #[trigger] r.variant_constructors@[k])@ == spec_variant_constructor(
                    Strategy::ReflectClone,
                    *self.reflect_enum,
                    this@,
                    self.reflect_enum.variants@[k],
                ),
    {
        build(Strategy::ReflectClone, self.reflect_enum, this)
    }
}

} // verus!
