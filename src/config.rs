use vstd::prelude::*;

verus! {

/// Smallest number of groups of `group` items that covers `total` items.
pub open spec fn ceil_div(total: nat, group: nat) -> nat
    recommends
        group > 0,
{
    ((total + group - 1) as nat / group) as nat
}

/// Why a set of render settings was refused.
#[derive(Clone, Copy, Debug, PartialEq, Eq, Structural)]
pub enum ConfigError {
    /// The width or the height of the render target is zero.
    ZeroDimension,
    /// No samples per pixel were asked for.
    ZeroSamples,
    /// The workgroup size is zero.
    ZeroWorkgroup,
    /// width × height × samples does not fit in a 32-bit ray count.
    TooManyRays,
}

/// Session-wide render settings: fixed for the life of a session.
#[derive(Clone, Copy, Debug, PartialEq, Eq, Structural)]
pub struct RenderConfig {
    pub width: u32,
    pub height: u32,
    pub samples_per_ray: u32,
    pub workgroup_size: u32,
    pub max_bounces: u32,
}

impl RenderConfig {
    /// Number of rays traced in one frame: one per sample of every pixel.
    pub open spec fn total_rays(&self) -> nat {
        self.width as nat * self.height as nat * self.samples_per_ray as nat
    }

    /// Settings that a session can run with.
    pub open spec fn wf(&self) -> bool {
        &&& self.width >= 1
        &&& self.height >= 1
        &&& self.samples_per_ray >= 1
        &&& self.workgroup_size >= 1
        &&& self.total_rays() <= u32::MAX
    }

    /// Checks a set of settings; each error names the first rule broken.
    pub fn new(
        width: u32,
        height: u32,
        samples_per_ray: u32,
        workgroup_size: u32,
        max_bounces: u32,
    ) -> (r: Result<RenderConfig, ConfigError>)
        ensures
            r is Ok <==> width > 0 && height > 0 && samples_per_ray > 0 && workgroup_size > 0
                && (width as nat * height as nat * samples_per_ray as nat) <= u32::MAX,
            r matches Ok(c) ==> c.wf() && c == (RenderConfig {
                width,
                height,
                samples_per_ray,
                workgroup_size,
                max_bounces,
            }),
            r == Err::<RenderConfig, ConfigError>(ConfigError::ZeroDimension) <==> (width == 0
                || height == 0),
            r == Err::<RenderConfig, ConfigError>(ConfigError::ZeroSamples) <==> (width > 0
                && height > 0 && samples_per_ray == 0),
            r == Err::<RenderConfig, ConfigError>(ConfigError::ZeroWorkgroup) <==> (width > 0
                && height > 0 && samples_per_ray > 0 && workgroup_size == 0),
            r == Err::<RenderConfig, ConfigError>(ConfigError::TooManyRays) <==> (width > 0
                && height > 0 && samples_per_ray > 0 && workgroup_size > 0 && (width as nat
                * height as nat * samples_per_ray as nat) > u32::MAX),
    {
        if width == 0 || height == 0 {
            return Err(ConfigError::ZeroDimension);
        }
        if samples_per_ray == 0 {
            return Err(ConfigError::ZeroSamples);
        }
        if workgroup_size == 0 {
            return Err(ConfigError::ZeroWorkgroup);
        }
        proof {
            lemma_ray_product_fits(width, height, samples_per_ray);
        }
        let pixels: u64 = width as u64 * height as u64;
        let rays: u128 = pixels as u128 * samples_per_ray as u128;
        if rays > u32::MAX as u128 {
            return Err(ConfigError::TooManyRays);
        }
        Ok(RenderConfig { width, height, samples_per_ray, workgroup_size, max_bounces })
    }

    /// The settings of the stock session: the crate's constants.
    pub fn standard() -> (r: RenderConfig)
        ensures
            r.wf(),
            r.width == crate::RENDER_WIDTH,
            r.height == crate::RENDER_HEIGHT,
            r.samples_per_ray == crate::SAMPLES_PER_RAY,
            r.workgroup_size == crate::WORKGROUP_SIZE,
            r.max_bounces == crate::MAX_BOUNCES,
    {
        let r = RenderConfig {
            width: crate::RENDER_WIDTH,
            height: crate::RENDER_HEIGHT,
            samples_per_ray: crate::SAMPLES_PER_RAY,
            workgroup_size: crate::WORKGROUP_SIZE,
            max_bounces: crate::MAX_BOUNCES,
        };
        assert(r.total_rays() == 2073600) by (nonlinear_arith)
            requires
                r.width == 1920 && r.height == 1080 && r.samples_per_ray == 1,
        ;
        r
    }

    /// Rays per frame; also the element count of the ray and intersection buffers.
    pub fn ray_count(&self) -> (r: u32)
        requires
            self.wf(),
        ensures
            r == self.total_rays(),
    {
        proof {
            lemma_ray_product_fits(self.width, self.height, self.samples_per_ray);
        }
        let pixels: u64 = self.width as u64 * self.height as u64;
        let rays: u128 = pixels as u128 * self.samples_per_ray as u128;
        rays as u32
    }

    /// Workgroups to dispatch so that every ray gets a work item: the ray count
    /// divided by the workgroup size, rounded up. Work items past the ray count
    /// are fewer than one workgroup and are bounds-checked by the kernels.
    pub fn dispatch_count(&self) -> (r: u32)
        requires
            self.wf(),
        ensures
            r == ceil_div(self.total_rays(), self.workgroup_size as nat),
            (r as nat * self.workgroup_size as nat) >= self.total_rays(),
            (r as nat * self.workgroup_size as nat) < self.total_rays() + self.workgroup_size,
    {
        let total: u64 = self.ray_count() as u64;
        let group: u64 = self.workgroup_size as u64;
        let r: u64 = (total + group - 1) / group;
        proof {
            lemma_ceil_div_bounds(total as nat, group as nat);
        }
        r as u32
    }
}

/// The ray product of three 32-bit factors fits in 128 bits, its first two in 64.
proof fn lemma_ray_product_fits(w: u32, h: u32, s: u32)
    ensures
        w as nat * h as nat <= u64::MAX,
        w as nat * h as nat * s as nat <= u128::MAX,
{
    assert(w as nat * h as nat <= u64::MAX) by (nonlinear_arith)
        requires
            w <= u32::MAX,
            h <= u32::MAX,
    ;
    assert(w as nat * h as nat * s as nat <= u128::MAX) by (nonlinear_arith)
        requires
            w as nat * h as nat <= u64::MAX,
            s <= u32::MAX,
    ;
}

/// `ceil_div` covers all items, and overshoots by less than one group.
pub proof fn lemma_ceil_div_bounds(total: nat, group: nat)
    requires
        group > 0,
    ensures
        ceil_div(total, group) * group >= total,
        ceil_div(total, group) * group < total + group,
        ceil_div(total, group) <= total,
{
    let s = (total + group - 1) as nat;
    let q = s / group;
    let m = s % group;
    vstd::arithmetic::div_mod::lemma_fundamental_div_mod(s as int, group as int);
    assert(q * group + m == s);
    assert(q <= total) by (nonlinear_arith)
        requires
            q * group + m == s,
            s == total + group - 1,
            group > 0,
            m >= 0,
    ;
}

} // verus!
